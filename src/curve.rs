use vstd::prelude::*;
use crate::error::GammaError;
use crate::math::{ceil_div, floor_div, lemma_ceil_div_bounds, lemma_floor_div_bounds, mul_div};
use crate::state::FEE_RATE_DENOMINATOR;

verus! {

/// The fee rate a swap pays: the base rate, plus the volatility surcharge
/// unless a privileged router invoked the swap, capped at the pool's maximum.
pub open spec fn dynamic_fee_rate_of(
    base_rate: int,
    volatility_factor: int,
    volatility: int,
    max_rate: int,
    privileged: bool,
) -> int {
    let raw = if privileged {
        base_rate
    } else {
        base_rate + floor_div(volatility_factor * volatility, FEE_RATE_DENOMINATOR as int)
    };
    if raw > max_rate {
        max_rate
    } else {
        raw
    }
}

/// Input, before fee, that keeps the product of the reserves when `amount_out`
/// leaves a pool of reserves `(reserve_in, reserve_out)`: solved exactly, rounded up.
pub open spec fn source_without_fee(reserve_in: int, reserve_out: int, amount_out: int) -> int {
    ceil_div(reserve_in * amount_out, reserve_out - amount_out)
}

/// Fee to add on top of a net input `amount` so that the fee is `rate` of
/// the gross input, rounded up.
pub open spec fn trade_fee_of(amount: int, rate: int) -> int {
    ceil_div(amount * rate, FEE_RATE_DENOMINATOR - rate)
}

/// The part `rate` of `fee`, rounded down.
pub open spec fn fee_part(fee: int, rate: int) -> int {
    floor_div(fee * rate, FEE_RATE_DENOMINATOR as int)
}

/// Outcome of the price curve for one trade.
#[derive(Clone, Copy, Debug)]
pub struct SwapResult {
    /// Input reserve after the trade, fee included.
    pub new_swap_source_amount: u128,
    /// Output reserve after the trade.
    pub new_swap_destination_amount: u128,
    /// Gross input, fee included.
    pub source_amount_swapped: u128,
    /// Output delivered.
    pub destination_amount_swapped: u128,
    /// Whole fee taken from the input.
    pub dynamic_fee: u128,
    /// Protocol part of the fee.
    pub protocol_fee: u128,
    /// Fund part of the fee.
    pub fund_fee: u128,
    /// Fee rate applied.
    pub dynamic_fee_rate: u64,
}

/// Whether the curve can price an output-fixed trade, and why not.
pub open spec fn output_fixed_error(reserve_in: int, reserve_out: int, amount_out: int) -> Option<
    GammaError,
> {
    if amount_out == 0 || amount_out >= reserve_out || reserve_in == 0 {
        Some(GammaError::ZeroTradeAmount)
    } else if source_without_fee(reserve_in, reserve_out, amount_out) > u64::MAX {
        Some(GammaError::ArithmeticOverflow)
    } else {
        None
    }
}

/// The curve's result for an output-fixed trade that it can price.
pub open spec fn output_fixed_result(
    reserve_in: int,
    reserve_out: int,
    amount_out: int,
    fee_rate: int,
    protocol_fee_rate: int,
    fund_fee_rate: int,
    r: SwapResult,
) -> bool {
    let net = source_without_fee(reserve_in, reserve_out, amount_out);
    let fee = trade_fee_of(net, fee_rate);
    &&& r.source_amount_swapped == net + fee
    &&& r.destination_amount_swapped == amount_out
    &&& r.dynamic_fee == fee
    &&& r.protocol_fee == fee_part(fee, protocol_fee_rate)
    &&& r.fund_fee == fee_part(fee, fund_fee_rate)
    &&& r.new_swap_source_amount == reserve_in + net + fee
    &&& r.new_swap_destination_amount == reserve_out - amount_out
    &&& r.dynamic_fee_rate == fee_rate
}

/// Computes the dynamic fee rate of a swap.
pub fn dynamic_fee_rate(
    base_rate: u64,
    volatility_factor: u64,
    volatility: u64,
    max_rate: u64,
    privileged: bool,
) -> (r: u64)
    ensures
        r == dynamic_fee_rate_of(
            base_rate as int,
            volatility_factor as int,
            volatility as int,
            max_rate as int,
            privileged,
        ),
        r <= max_rate,
{
    let raw: u128 = if privileged {
        base_rate as u128
    } else {
        assert((volatility_factor as int) * (volatility as int) <= u64::MAX * u64::MAX)
            by (nonlinear_arith);
        let surcharge = mul_div(
            volatility_factor as u128,
            volatility as u128,
            FEE_RATE_DENOMINATOR as u128,
            false,
        );
        proof {
            lemma_floor_div_bounds(
                volatility_factor * volatility,
                FEE_RATE_DENOMINATOR as int,
            );
        }
        base_rate as u128 + surcharge
    };
    if raw > max_rate as u128 {
        max_rate
    } else {
        raw as u64
    }
}

/// Prices a trade that must deliver exactly `amount_out`: the input is solved
/// exactly from the constant-product invariant, then the fee at `fee_rate` is
/// added on top and split into its protocol and fund parts.
pub fn swap_base_output(
    amount_out: u64,
    reserve_in: u64,
    reserve_out: u64,
    fee_rate: u64,
    protocol_fee_rate: u64,
    fund_fee_rate: u64,
) -> (r: Result<SwapResult, GammaError>)
    requires
        fee_rate < FEE_RATE_DENOMINATOR,
        protocol_fee_rate + fund_fee_rate <= FEE_RATE_DENOMINATOR,
    ensures
        match r {
            Ok(s) => output_fixed_error(reserve_in as int, reserve_out as int, amount_out as int)
                is None && output_fixed_result(
                reserve_in as int,
                reserve_out as int,
                amount_out as int,
                fee_rate as int,
                protocol_fee_rate as int,
                fund_fee_rate as int,
                s,
            ),
            Err(e) => output_fixed_error(reserve_in as int, reserve_out as int, amount_out as int)
                == Some(e),
        },
{
    if amount_out == 0 || amount_out >= reserve_out || reserve_in == 0 {
        return Err(GammaError::ZeroTradeAmount);
    }
    assert((reserve_in as int) * (amount_out as int) <= u64::MAX * u64::MAX) by (nonlinear_arith);
    let net = mul_div(
        reserve_in as u128,
        amount_out as u128,
        (reserve_out - amount_out) as u128,
        true,
    );
    if net > u64::MAX as u128 {
        return Err(GammaError::ArithmeticOverflow);
    }
    assert((net as int) * (fee_rate as int) <= u64::MAX * FEE_RATE_DENOMINATOR) by (nonlinear_arith)
        requires
            net <= u64::MAX,
            fee_rate < FEE_RATE_DENOMINATOR,
    ;
    let fee = mul_div(net, fee_rate as u128, (FEE_RATE_DENOMINATOR - fee_rate) as u128, true);
    proof {
        lemma_ceil_div_bounds(net * fee_rate, FEE_RATE_DENOMINATOR - fee_rate);
    }
    assert((fee as int) * (protocol_fee_rate as int) <= u64::MAX * FEE_RATE_DENOMINATOR
        * FEE_RATE_DENOMINATOR) by (nonlinear_arith)
        requires
            fee <= net * fee_rate,
            net <= u64::MAX,
            fee_rate < FEE_RATE_DENOMINATOR,
            protocol_fee_rate <= FEE_RATE_DENOMINATOR,
    ;
    assert((fee as int) * (fund_fee_rate as int) <= u64::MAX * FEE_RATE_DENOMINATOR
        * FEE_RATE_DENOMINATOR) by (nonlinear_arith)
        requires
            fee <= net * fee_rate,
            net <= u64::MAX,
            fee_rate < FEE_RATE_DENOMINATOR,
            fund_fee_rate <= FEE_RATE_DENOMINATOR,
    ;
    let protocol_fee = mul_div(fee, protocol_fee_rate as u128, FEE_RATE_DENOMINATOR as u128, false);
    let fund_fee = mul_div(fee, fund_fee_rate as u128, FEE_RATE_DENOMINATOR as u128, false);
    let source = net + fee;
    Ok(
        SwapResult {
            new_swap_source_amount: reserve_in as u128 + source,
            new_swap_destination_amount: (reserve_out - amount_out) as u128,
            source_amount_swapped: source,
            destination_amount_swapped: amount_out as u128,
            dynamic_fee: fee,
            protocol_fee,
            fund_fee,
            dynamic_fee_rate: fee_rate,
        },
    )
}

/// Which way a share-to-asset conversion rounds.
#[derive(Clone, Copy, Debug, PartialEq, Eq, Structural)]
pub enum RoundDirection {
    /// Towards zero: what the pool pays out.
    Floor,
    /// Away from zero: what the pool takes in.
    Ceiling,
}

/// Asset amount worth `lp` shares of a pool with `supply` shares and `reserve`.
pub open spec fn lp_to_token(lp: int, supply: int, reserve: int, round: RoundDirection) -> int {
    match round {
        RoundDirection::Floor => floor_div(lp * reserve, supply),
        RoundDirection::Ceiling => ceil_div(lp * reserve, supply),
    }
}

/// Asset amounts of both sides.
#[derive(Clone, Copy, Debug)]
pub struct TradingTokenResult {
    pub token_0_amount: u128,
    pub token_1_amount: u128,
}

/// Converts `lp_token_amount` shares into the two asset amounts they stand
/// for, rounded as `round_direction` says; `None` for a pool without shares.
pub fn lp_tokens_to_trading_tokens(
    lp_token_amount: u64,
    lp_token_supply: u64,
    token_0_vault_amount: u64,
    token_1_vault_amount: u64,
    round_direction: RoundDirection,
) -> (r: Option<TradingTokenResult>)
    ensures
        lp_token_supply == 0 <==> r is None,
        r matches Some(t) ==> {
            &&& t.token_0_amount == lp_to_token(
                lp_token_amount as int,
                lp_token_supply as int,
                token_0_vault_amount as int,
                round_direction,
            )
            &&& t.token_1_amount == lp_to_token(
                lp_token_amount as int,
                lp_token_supply as int,
                token_1_vault_amount as int,
                round_direction,
            )
        },
{
    if lp_token_supply == 0 {
        return None;
    }
    assert((lp_token_amount as int) * (token_0_vault_amount as int) <= u64::MAX * u64::MAX)
        by (nonlinear_arith);
    assert((lp_token_amount as int) * (token_1_vault_amount as int) <= u64::MAX * u64::MAX)
        by (nonlinear_arith);
    let up = round_direction == RoundDirection::Ceiling;
    let token_0_amount = mul_div(
        lp_token_amount as u128,
        token_0_vault_amount as u128,
        lp_token_supply as u128,
        up,
    );
    let token_1_amount = mul_div(
        lp_token_amount as u128,
        token_1_vault_amount as u128,
        lp_token_supply as u128,
        up,
    );
    Some(TradingTokenResult { token_0_amount, token_1_amount })
}

} // verus!
