//! A constant-product liquidity pool engine: swap pricing with a dynamic fee,
//! fee splitting, share accounting for deposits and withdrawals, and
//! time-weighted reward accrual for liquidity providers.

pub mod curve;
pub mod error;
pub mod fees;
pub mod initialize;
pub mod laws;
pub mod liquidity;
pub mod math;
pub mod rewards;
pub mod state;
pub mod swap;
pub mod token;
