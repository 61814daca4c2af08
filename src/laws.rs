use vstd::prelude::*;
use crate::curve::{lp_to_token, output_fixed_error, output_fixed_result, RoundDirection, SwapResult};
use crate::error::GammaError;
use crate::initialize::{initialize_error, Initialize};
use crate::liquidity::{
    amount_0_of, amount_1_of, deposit_done, withdraw_done, Deposit, LpChange, Withdraw,
};
use crate::math::{lemma_ceil_div_bounds, lemma_floor_div_bounds, ceil_div, floor_div};
use crate::rewards::{reward_increment, rewards_done, CalculateRewards};
use crate::state::{key_order, status_enabled, KeyOrder, STATUS_DEPOSIT};
use crate::swap::lemma_constant_product_kept;

verus! {

/// A trade the curve prices never lowers the product of the reserves: the
/// input reserve after the trade, less the fee it retains, times the output
/// reserve after the trade, is at least the product before.
pub proof fn law_swap_keeps_constant_product(
    reserve_in: u64,
    reserve_out: u64,
    amount_out: u64,
    fee_rate: u64,
    protocol_fee_rate: u64,
    fund_fee_rate: u64,
    r: SwapResult,
)
    requires
        output_fixed_error(reserve_in as int, reserve_out as int, amount_out as int) is None,
        output_fixed_result(
            reserve_in as int,
            reserve_out as int,
            amount_out as int,
            fee_rate as int,
            protocol_fee_rate as int,
            fund_fee_rate as int,
            r,
        ),
    ensures
        (r.new_swap_source_amount - r.dynamic_fee) * r.new_swap_destination_amount >= reserve_in
            * reserve_out,
{
    lemma_constant_product_kept(
        reserve_in as int,
        reserve_out as int,
        amount_out as int,
        r.source_amount_swapped - r.dynamic_fee,
        r.new_swap_source_amount - r.dynamic_fee,
    );
}

/// Redeeming right away the `lp` shares just bought returns no more of an
/// asset than was paid for them: the deposit rounds up, the withdrawal down.
pub proof fn lemma_round_trip_amount(lp: int, supply: int, reserve: int)
    requires
        lp >= 0,
        supply > 0,
        reserve >= 0,
    ensures
        lp_to_token(
            lp,
            supply + lp,
            reserve + lp_to_token(lp, supply, reserve, RoundDirection::Ceiling),
            RoundDirection::Floor,
        ) <= lp_to_token(lp, supply, reserve, RoundDirection::Ceiling),
{
    assert(lp * reserve >= 0) by (nonlinear_arith)
        requires
            lp >= 0,
            reserve >= 0,
    ;
    lemma_ceil_div_bounds(lp * reserve, supply);
    let a = ceil_div(lp * reserve, supply);
    assert(lp * (reserve + a) >= 0) by (nonlinear_arith)
        requires
            lp >= 0,
            reserve >= 0,
            a >= 0,
    ;
    lemma_floor_div_bounds(lp * (reserve + a), supply + lp);
    let q = floor_div(lp * (reserve + a), supply + lp);
    assert(q <= a) by (nonlinear_arith)
        requires
            a * supply >= lp * reserve,
            q * (supply + lp) <= lp * (reserve + a),
            supply > 0,
            lp >= 0,
    ;
}

/// A deposit of `lp` shares followed at once by a withdrawal of the same
/// shares returns at most the asset amounts the deposit took.
pub proof fn law_deposit_then_withdraw(
    d0: Deposit,
    d1: Deposit,
    w0: Withdraw,
    w1: Withdraw,
    lp: u64,
    max_0: u64,
    max_1: u64,
    min_0: u64,
    min_1: u64,
    c1: LpChange,
    c2: LpChange,
)
    requires
        deposit_done(d0, d1, lp, max_0, max_1, Ok(c1)),
        w0.pool_state == d1.pool_state,
        withdraw_done(w0, w1, lp, min_0, min_1, Ok(c2)),
    ensures
        c2.token_0_amount <= c1.token_0_amount,
        c2.token_1_amount <= c1.token_1_amount,
{
    let p = d0.pool_state;
    lemma_round_trip_amount(lp as int, p.lp_supply as int, p.token_0_vault_amount as int);
    lemma_round_trip_amount(lp as int, p.lp_supply as int, p.token_1_vault_amount as int);
}

/// A second accrual at the same time as the first changes nothing.
pub proof fn law_accrual_idempotent(
    c0: CalculateRewards,
    c1: CalculateRewards,
    c2: CalculateRewards,
    r2: Result<(), GammaError>,
)
    requires
        rewards_done(c0, c1, Ok(())),
        rewards_done(c1, c2, r2),
    ensures
        r2 is Ok,
        c2 == c1,
{
}

/// The first accrual of a participant counts from the participant's first
/// deposit, not from the time of the call.
pub proof fn law_first_accrual_anchored(c0: CalculateRewards, c1: CalculateRewards)
    requires
        rewards_done(c0, c1, Ok(())),
        c0.user_reward_info.rewards_last_calculated_at == 0,
        c0.current_time > 0,
    ensures
        c1.user_reward_info.total_rewards == c0.user_reward_info.total_rewards + reward_increment(
            c0.reward_info,
            c0.user_pool_liquidity.first_investment_at as int,
            c0.current_time as int,
            c0.user_pool_liquidity.lp_tokens_owned as int,
            c0.pool_state.lp_supply as int,
        ),
        c1.user_reward_info.rewards_last_calculated_at == c0.current_time,
{
}

/// A pool whose assets are not in strictly increasing order is refused.
pub proof fn law_unsorted_pair_rejected(ctx: Initialize, open_time: u64, max_trade_fee_rate: u64)
    requires
        key_order(ctx.token_0_mint@, ctx.token_1_mint@) != KeyOrder::Less,
    ensures
        initialize_error(ctx, open_time, max_trade_fee_rate) == Some(GammaError::InvalidAssetForPool),
{
}

/// A deposit of a non-zero share amount into a pool with shares, whose
/// rounded-up asset amounts are not zero, fails with a slippage error exactly
/// when an amount plus its transfer overhead exceeds the caller's maximum;
/// and then the reserves and the share supply are as they were.
pub proof fn law_deposit_slippage(
    d0: Deposit,
    d1: Deposit,
    lp: u64,
    max_0: u64,
    max_1: u64,
    r: Result<LpChange, GammaError>,
)
    requires
        deposit_done(d0, d1, lp, max_0, max_1, r),
        lp > 0,
        status_enabled(d0.pool_state.status, STATUS_DEPOSIT),
        d0.pool_state.lp_supply > 0,
        amount_0_of(d0.pool_state, lp as int, RoundDirection::Ceiling) > 0,
        amount_1_of(d0.pool_state, lp as int, RoundDirection::Ceiling) > 0,
    ensures
        (amount_0_of(d0.pool_state, lp as int, RoundDirection::Ceiling) + d0.token_0_transfer_fee
            > max_0 || amount_1_of(d0.pool_state, lp as int, RoundDirection::Ceiling)
            + d0.token_1_transfer_fee > max_1) <==> r == Err::<LpChange, GammaError>(
            GammaError::SlippageExceeded,
        ),
        r == Err::<LpChange, GammaError>(GammaError::SlippageExceeded) ==> {
            &&& d1.pool_state.token_0_vault_amount == d0.pool_state.token_0_vault_amount
            &&& d1.pool_state.token_1_vault_amount == d0.pool_state.token_1_vault_amount
            &&& d1.pool_state.lp_supply == d0.pool_state.lp_supply
        },
{
}

} // verus!
