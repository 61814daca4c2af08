use vstd::prelude::*;

verus! {

/// Every way an operation on a pool can fail. Each failure aborts the whole
/// operation and leaves every record it touched unchanged.
#[derive(Clone, Copy, Debug, PartialEq, Eq, Structural)]
pub enum GammaError {
    /// The caller lacks the privilege the operation asks for.
    Unauthorized,
    /// The operation's status bit is off, or the pool is not active yet.
    OperationDisabled,
    /// The computed trade or share amounts are degenerate (zero).
    ZeroTradeAmount,
    /// A checked operation went above its type's range.
    ArithmeticOverflow,
    /// A checked operation went below zero.
    ArithmeticUnderflow,
    /// A computed amount violates the bound the caller set.
    SlippageExceeded,
    /// A supplied asset or vault does not belong to the pool, or the pair is
    /// not in canonical order.
    InvalidAssetForPool,
    /// An asset is of a kind the pool does not accept.
    UnsupportedAssetKind,
    /// The requested activation time is too far ahead.
    InvalidActivationTime,
    /// A fee rate is out of its allowed range.
    InvalidFeeRate,
}

} // verus!
