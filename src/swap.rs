use vstd::prelude::*;
use crate::curve::{
    dynamic_fee_rate, dynamic_fee_rate_of, fee_part, output_fixed_error, output_fixed_result,
    source_without_fee, swap_base_output as curve_swap_base_output, trade_fee_of, SwapResult,
};
use crate::error::GammaError;
use crate::fees::{
    partners_trackable, partners_tracked, referral_cut, track_partner_fees, ReferralInfo,
};
use crate::math::{floor_div, lemma_ceil_div_bounds};
use crate::state::{
    status_enabled, AmmConfig, PoolState, Pubkey, FEE_RATE_DENOMINATOR, STATUS_SWAP,
};

verus! {

/// Everything an output-fixed swap reads: the pool and its configuration,
/// the vaults the trader named, and what the host and its collaborators
/// report (the time, the oracle's volatility, the transfer overheads of the
/// amounts involved).
#[derive(Clone, Debug)]
pub struct Swap {
    pub amm_config: AmmConfig,
    pub pool_state: PoolState,
    /// Vault the input asset goes into.
    pub input_vault: Pubkey,
    /// Vault the output asset comes from.
    pub output_vault: Pubkey,
    pub block_timestamp: u64,
    pub epoch: u64,
    /// Volatility read from the oracle snapshot, in fee-rate units.
    pub volatility: u64,
    /// The swap was routed through a registered, signed router, which pays
    /// the base fee rate only.
    pub invoked_by_privileged_router: bool,
    pub referral: Option<ReferralInfo>,
    /// Overhead of moving the input amount (`source_amount_swapped`) in.
    pub input_transfer_fee: u64,
    /// Overhead of moving the requested net output out.
    pub output_transfer_fee: u64,
    /// Overhead of moving the referral rebate.
    pub referral_transfer_fee: u64,
}

impl Swap {
    pub open spec fn wf(&self) -> bool {
        &&& self.amm_config.wf()
        &&& self.pool_state.wf()
        &&& self.referral matches Some(r) ==> r.wf()
    }
}

/// What a swap settled, for the transfer collaborator, the oracle and the
/// event stream.
#[derive(Clone, Copy, Debug)]
pub struct SwapOutcome {
    /// The input asset is asset 0.
    pub zero_for_one: bool,
    pub reserve_in_before: u64,
    pub reserve_out_before: u64,
    /// Gross input the curve asked for, fee included.
    pub source_amount_swapped: u64,
    /// Amount pulled from the payer into the pool vault.
    pub input_transfer_amount: u64,
    pub input_transfer_fee: u64,
    /// Amount sent from the pool vault to the payer.
    pub output_transfer_amount: u64,
    pub output_transfer_fee: u64,
    /// Rebate sent from the payer to the referrer, if any.
    pub referral_amount: Option<u64>,
    pub dynamic_fee: u64,
    pub dynamic_fee_rate: u64,
    /// Price of asset 0 in asset 1 before the trade, 32-bit fixed point.
    pub token_0_price_x32: u128,
    /// Price of asset 1 in asset 0 before the trade, 32-bit fixed point.
    pub token_1_price_x32: u128,
}

/// `Some(true)` for a trade of asset 0 into asset 1, `Some(false)` for the
/// reverse, `None` where the vaults are not the pool's.
pub open spec fn swap_direction(s: Swap) -> Option<bool> {
    if s.input_vault@ == s.pool_state.token_0_vault@ && s.output_vault@
        == s.pool_state.token_1_vault@ {
        Some(true)
    } else if s.input_vault@ == s.pool_state.token_1_vault@ && s.output_vault@
        == s.pool_state.token_0_vault@ {
        Some(false)
    } else {
        None
    }
}

pub open spec fn reserve_in_of(p: PoolState, zero_for_one: bool) -> int {
    if zero_for_one {
        p.token_0_vault_amount as int
    } else {
        p.token_1_vault_amount as int
    }
}

pub open spec fn reserve_out_of(p: PoolState, zero_for_one: bool) -> int {
    if zero_for_one {
        p.token_1_vault_amount as int
    } else {
        p.token_0_vault_amount as int
    }
}

/// The fee rate the swap pays.
pub open spec fn swap_fee_rate(s: Swap) -> int {
    dynamic_fee_rate_of(
        s.amm_config.trade_fee_rate as int,
        s.pool_state.volatility_factor as int,
        s.volatility as int,
        s.pool_state.max_trade_fee_rate as int,
        s.invoked_by_privileged_router,
    )
}

/// Output the curve must deliver: the net output plus its transfer overhead.
pub open spec fn swap_actual_out(s: Swap, amount_out_less_fee: u64) -> int {
    amount_out_less_fee + s.output_transfer_fee
}

pub open spec fn swap_net(s: Swap, z: bool, amount_out_less_fee: u64) -> int {
    source_without_fee(
        reserve_in_of(s.pool_state, z),
        reserve_out_of(s.pool_state, z),
        swap_actual_out(s, amount_out_less_fee),
    )
}

pub open spec fn swap_fee(s: Swap, z: bool, amount_out_less_fee: u64) -> int {
    trade_fee_of(swap_net(s, z, amount_out_less_fee), swap_fee_rate(s))
}

pub open spec fn swap_source(s: Swap, z: bool, amount_out_less_fee: u64) -> int {
    swap_net(s, z, amount_out_less_fee) + swap_fee(s, z, amount_out_less_fee)
}

pub open spec fn swap_protocol_fee(s: Swap, z: bool, amount_out_less_fee: u64) -> int {
    fee_part(swap_fee(s, z, amount_out_less_fee), s.amm_config.protocol_fee_rate as int)
}

pub open spec fn swap_fund_fee(s: Swap, z: bool, amount_out_less_fee: u64) -> int {
    fee_part(swap_fee(s, z, amount_out_less_fee), s.amm_config.fund_fee_rate as int)
}

/// Referrer's cut of the protocol fee (zero without a referral).
pub open spec fn referral_from_protocol(s: Swap, z: bool, amount_out_less_fee: u64) -> int {
    match s.referral {
        Some(r) => referral_cut(swap_protocol_fee(s, z, amount_out_less_fee), r.share as int),
        None => 0,
    }
}

/// Referrer's cut of the fund fee (zero without a referral).
pub open spec fn referral_from_fund(s: Swap, z: bool, amount_out_less_fee: u64) -> int {
    match s.referral {
        Some(r) => referral_cut(swap_fund_fee(s, z, amount_out_less_fee), r.share as int),
        None => 0,
    }
}

pub open spec fn referral_total(s: Swap, z: bool, amount_out_less_fee: u64) -> int {
    referral_from_protocol(s, z, amount_out_less_fee) + referral_from_fund(s, z, amount_out_less_fee)
}

/// The rebate is paid: there is a referral, its amount is not zero, and the
/// transfer overhead does not eat all of it.
pub open spec fn referral_applies(s: Swap, z: bool, amount_out_less_fee: u64) -> bool {
    &&& s.referral is Some
    &&& referral_total(s, z, amount_out_less_fee) != 0
    &&& s.referral_transfer_fee < referral_total(s, z, amount_out_less_fee)
}

/// Protocol fee kept after the rebate.
pub open spec fn kept_protocol_fee(s: Swap, z: bool, amount_out_less_fee: u64) -> int {
    if referral_applies(s, z, amount_out_less_fee) {
        swap_protocol_fee(s, z, amount_out_less_fee) - referral_from_protocol(
            s,
            z,
            amount_out_less_fee,
        )
    } else {
        swap_protocol_fee(s, z, amount_out_less_fee)
    }
}

/// Fund fee kept after the rebate.
pub open spec fn kept_fund_fee(s: Swap, z: bool, amount_out_less_fee: u64) -> int {
    if referral_applies(s, z, amount_out_less_fee) {
        swap_fund_fee(s, z, amount_out_less_fee) - referral_from_fund(s, z, amount_out_less_fee)
    } else {
        swap_fund_fee(s, z, amount_out_less_fee)
    }
}

/// The part of the rebate carved out of what the payer sends the pool.
pub open spec fn rebate(s: Swap, z: bool, amount_out_less_fee: u64) -> int {
    if referral_applies(s, z, amount_out_less_fee) {
        referral_total(s, z, amount_out_less_fee)
    } else {
        0
    }
}

/// Amount pulled from the payer into the pool vault.
pub open spec fn input_transfer_of(s: Swap, z: bool, amount_out_less_fee: u64) -> int {
    swap_source(s, z, amount_out_less_fee) + s.input_transfer_fee - rebate(
        s,
        z,
        amount_out_less_fee,
    )
}

/// Input reserve after the trade: the input less the rebate and the fees
/// that leave the reserves.
pub open spec fn new_reserve_in(s: Swap, z: bool, amount_out_less_fee: u64) -> int {
    reserve_in_of(s.pool_state, z) + swap_source(s, z, amount_out_less_fee) - rebate(
        s,
        z,
        amount_out_less_fee,
    ) - kept_fund_fee(s, z, amount_out_less_fee) - kept_protocol_fee(s, z, amount_out_less_fee)
}

pub open spec fn protocol_fees_of(p: PoolState, z: bool) -> int {
    if z {
        p.protocol_fees_token_0 as int
    } else {
        p.protocol_fees_token_1 as int
    }
}

pub open spec fn fund_fees_of(p: PoolState, z: bool) -> int {
    if z {
        p.fund_fees_token_0 as int
    } else {
        p.fund_fees_token_1 as int
    }
}

pub open spec fn trade_fees_of(p: PoolState, z: bool) -> int {
    if z {
        p.cumulative_trade_fees_token_0 as int
    } else {
        p.cumulative_trade_fees_token_1 as int
    }
}

/// Cumulative volume of asset 0 when `side0`, else of asset 1.
pub open spec fn volume_of(p: PoolState, side0: bool) -> int {
    if side0 {
        p.cumulative_volume_token_0 as int
    } else {
        p.cumulative_volume_token_1 as int
    }
}

/// Some counter of the ledger would leave its range.
pub open spec fn ledger_overflows(s: Swap, z: bool, o: u64) -> bool {
    let p = s.pool_state;
    ||| protocol_fees_of(p, z) + kept_protocol_fee(s, z, o) > u64::MAX
    ||| fund_fees_of(p, z) + kept_fund_fee(s, z, o) > u64::MAX
    ||| trade_fees_of(p, z) + swap_fee(s, z, o) > u128::MAX
    ||| volume_of(p, z) + input_transfer_of(s, z, o) > u128::MAX
    ||| volume_of(p, !z) + swap_actual_out(s, o) > u128::MAX
    ||| reserve_in_of(p, z) + swap_source(s, z, o) - rebate(s, z, o) > u64::MAX
}

/// Why an output-fixed swap cannot even be priced, checked in this order;
/// `None` when the curve prices it.
pub open spec fn quote_error(s: Swap, o: u64) -> Option<GammaError> {
    let p = s.pool_state;
    if o == 0 {
        Some(GammaError::ZeroTradeAmount)
    } else if !status_enabled(p.status, STATUS_SWAP) || s.block_timestamp < p.open_time {
        Some(GammaError::OperationDisabled)
    } else if swap_direction(s) is None {
        Some(GammaError::InvalidAssetForPool)
    } else if swap_actual_out(s, o) > u64::MAX {
        Some(GammaError::ArithmeticOverflow)
    } else {
        let z = swap_direction(s)->0;
        let e = output_fixed_error(
            reserve_in_of(p, z),
            reserve_out_of(p, z),
            swap_actual_out(s, o),
        );
        if e is Some {
            e
        } else if swap_source(s, z, o) > u64::MAX {
            Some(GammaError::ArithmeticOverflow)
        } else {
            None
        }
    }
}

/// Why an output-fixed swap fails, checked in this order; `None` when it
/// goes through.
pub open spec fn swap_error(s: Swap, max_amount_in: u64, o: u64) -> Option<GammaError> {
    let p = s.pool_state;
    let z = swap_direction(s)->0;
    if quote_error(s, o) is Some {
        quote_error(s, o)
    } else if swap_source(s, z, o) + s.input_transfer_fee > u64::MAX {
        Some(GammaError::ArithmeticOverflow)
    } else if swap_source(s, z, o) + s.input_transfer_fee > max_amount_in {
        Some(GammaError::SlippageExceeded)
    } else if !partners_trackable(
        p.partners@,
        kept_protocol_fee(s, z, o),
        p.lp_supply as int,
        z,
    ) || ledger_overflows(s, z, o) {
        Some(GammaError::ArithmeticOverflow)
    } else {
        None
    }
}

/// Fixed-point price `num / den` with 32 fractional bits.
pub open spec fn price_x32(num: int, den: int) -> int {
    floor_div(num * 4294967296, den)
}

/// The ledger after a successful output-fixed swap in direction `z`.
pub open spec fn pool_after_swap(s: Swap, z: bool, o: u64, new: PoolState) -> bool {
    let p = s.pool_state;
    &&& partners_tracked(p.partners@, new.partners@, kept_protocol_fee(s, z, o), p.lp_supply as int, z)
    &&& reserve_in_of(new, z) == new_reserve_in(s, z, o)
    &&& reserve_out_of(new, z) == reserve_out_of(p, z) - swap_actual_out(s, o)
    &&& protocol_fees_of(new, z) == protocol_fees_of(p, z) + kept_protocol_fee(s, z, o)
    &&& protocol_fees_of(new, !z) == protocol_fees_of(p, !z)
    &&& fund_fees_of(new, z) == fund_fees_of(p, z) + kept_fund_fee(s, z, o)
    &&& fund_fees_of(new, !z) == fund_fees_of(p, !z)
    &&& trade_fees_of(new, z) == trade_fees_of(p, z) + swap_fee(s, z, o)
    &&& trade_fees_of(new, !z) == trade_fees_of(p, !z)
    &&& volume_of(new, z) == volume_of(p, z) + input_transfer_of(s, z, o)
    &&& volume_of(new, !z) == volume_of(p, !z) + swap_actual_out(s, o)
    &&& new.latest_dynamic_fee_rate == swap_fee_rate(s)
    &&& new.recent_epoch == s.epoch
    &&& new.lp_supply == p.lp_supply
    &&& new.status == p.status
    &&& new.open_time == p.open_time
    &&& new.max_trade_fee_rate == p.max_trade_fee_rate
    &&& new.volatility_factor == p.volatility_factor
    &&& new.token_0_vault == p.token_0_vault
    &&& new.token_1_vault == p.token_1_vault
    &&& new.token_0_mint == p.token_0_mint
    &&& new.token_1_mint == p.token_1_mint
    &&& new.amm_config == p.amm_config
    &&& new.pool_creator == p.pool_creator
    &&& new.observation_key == p.observation_key
}

/// What a successful output-fixed swap in direction `z` reports.
pub open spec fn swap_outcome_of(s: Swap, z: bool, o: u64, r: SwapOutcome) -> bool {
    let p = s.pool_state;
    &&& r.zero_for_one == z
    &&& r.reserve_in_before == reserve_in_of(p, z)
    &&& r.reserve_out_before == reserve_out_of(p, z)
    &&& r.source_amount_swapped == swap_source(s, z, o)
    &&& r.input_transfer_amount == input_transfer_of(s, z, o)
    &&& r.input_transfer_fee == s.input_transfer_fee
    &&& r.output_transfer_amount == swap_actual_out(s, o)
    &&& r.output_transfer_fee == s.output_transfer_fee
    &&& r.referral_amount == (if referral_applies(s, z, o) {
        Some(referral_total(s, z, o) as u64)
    } else {
        None
    })
    &&& r.dynamic_fee == swap_fee(s, z, o)
    &&& r.dynamic_fee_rate == swap_fee_rate(s)
    &&& r.token_0_price_x32 == price_x32(
        p.token_1_vault_amount as int,
        p.token_0_vault_amount as int,
    )
    &&& r.token_1_price_x32 == price_x32(
        p.token_0_vault_amount as int,
        p.token_1_vault_amount as int,
    )
}

/// An output-fixed trade as the curve prices it, before transfer overheads
/// of the input and of a rebate are known.
#[derive(Clone, Copy, Debug)]
pub struct SwapQuote {
    /// The input asset is asset 0.
    pub zero_for_one: bool,
    pub reserve_in: u64,
    pub reserve_out: u64,
    /// Output the pool delivers: the net output plus its transfer overhead.
    pub actual_amount_out: u64,
    /// The curve's result; its gross input fits in 64 bits.
    pub result: SwapResult,
    /// The referrer's cut of the protocol and fund fees (zero without a
    /// referral), whose transfer overhead decides whether it is paid.
    pub referral_amount: u64,
}

/// Prices an output-fixed trade without changing anything: the direction,
/// the reserves it trades against, and the curve's amounts and fee. The
/// host queries the transfer overhead of `result.source_amount_swapped`
/// from it before calling `swap_base_output`.
pub fn quote_swap_base_output(ctx: &Swap, amount_out_less_fee: u64) -> (r: Result<
    SwapQuote,
    GammaError,
>)
    requires
        ctx.wf(),
    ensures
        match r {
            Ok(q) => {
                let z = swap_direction(*ctx)->0;
                &&& quote_error(*ctx, amount_out_less_fee) is None
                &&& q.zero_for_one == z
                &&& q.reserve_in == reserve_in_of(ctx.pool_state, z)
                &&& q.reserve_out == reserve_out_of(ctx.pool_state, z)
                &&& q.actual_amount_out == swap_actual_out(*ctx, amount_out_less_fee)
                &&& output_fixed_result(
                    q.reserve_in as int,
                    q.reserve_out as int,
                    q.actual_amount_out as int,
                    swap_fee_rate(*ctx),
                    ctx.amm_config.protocol_fee_rate as int,
                    ctx.amm_config.fund_fee_rate as int,
                    q.result,
                )
                &&& q.result.source_amount_swapped <= u64::MAX
                &&& q.referral_amount == referral_total(*ctx, z, amount_out_less_fee)
            },
            Err(e) => quote_error(*ctx, amount_out_less_fee) == Some(e),
        },
{
    if amount_out_less_fee == 0 {
        return Err(GammaError::ZeroTradeAmount);
    }
    if !ctx.pool_state.get_status_by_bit(STATUS_SWAP) || ctx.block_timestamp
        < ctx.pool_state.open_time {
        return Err(GammaError::OperationDisabled);
    }
    let zero_for_one = if ctx.input_vault.same(&ctx.pool_state.token_0_vault)
        && ctx.output_vault.same(&ctx.pool_state.token_1_vault) {
        true
    } else if ctx.input_vault.same(&ctx.pool_state.token_1_vault) && ctx.output_vault.same(
        &ctx.pool_state.token_0_vault,
    ) {
        false
    } else {
        return Err(GammaError::InvalidAssetForPool);
    };
    assert(swap_direction(*ctx) == Some(zero_for_one));
    let actual_amount_out = match amount_out_less_fee.checked_add(ctx.output_transfer_fee) {
        Some(v) => v,
        None => return Err(GammaError::ArithmeticOverflow),
    };
    let (reserve_in, reserve_out) = if zero_for_one {
        (ctx.pool_state.token_0_vault_amount, ctx.pool_state.token_1_vault_amount)
    } else {
        (ctx.pool_state.token_1_vault_amount, ctx.pool_state.token_0_vault_amount)
    };
    let fee_rate = dynamic_fee_rate(
        ctx.amm_config.trade_fee_rate,
        ctx.pool_state.volatility_factor,
        ctx.volatility,
        ctx.pool_state.max_trade_fee_rate,
        ctx.invoked_by_privileged_router,
    );
    let result = match curve_swap_base_output(
        actual_amount_out,
        reserve_in,
        reserve_out,
        fee_rate,
        ctx.amm_config.protocol_fee_rate,
        ctx.amm_config.fund_fee_rate,
    ) {
        Ok(v) => v,
        Err(e) => return Err(e),
    };
    if result.source_amount_swapped > u64::MAX as u128 {
        return Err(GammaError::ArithmeticOverflow);
    }
    proof {
        let net = swap_net(*ctx, zero_for_one, amount_out_less_fee);
        lemma_ceil_div_bounds(
            reserve_in * actual_amount_out,
            reserve_out - actual_amount_out,
        );
        lemma_ceil_div_bounds(net * fee_rate, FEE_RATE_DENOMINATOR - fee_rate);
        lemma_fee_parts(
            result.dynamic_fee as int,
            ctx.amm_config.protocol_fee_rate as int,
            ctx.amm_config.fund_fee_rate as int,
        );
    }
    let referral_amount = match ctx.referral {
        Some(info) => {
            let from_protocol = info.get_referral_amount(result.protocol_fee as u64);
            let from_fund = info.get_referral_amount(result.fund_fee as u64);
            from_protocol.referral_amount + from_fund.referral_amount
        },
        None => 0,
    };
    Ok(
        SwapQuote {
            zero_for_one,
            reserve_in,
            reserve_out,
            actual_amount_out,
            result,
            referral_amount,
        },
    )
}

/// Executes a trade that delivers exactly `amount_out_less_fee` to the payer
/// (its transfer overhead on top), taking at most `max_amount_in` from them.
/// All-or-nothing: on any error the pool is left as it was. On success the
/// ledger holds the new reserves, fee accumulators, volumes, partner metrics,
/// fee rate and generation marker, and the outcome lists the transfers to
/// make in order (payer to pool, pool to payer, then the optional rebate to
/// the referrer) and the pre-trade prices for the oracle.
/// The product of the reserves, net of the retained fee, never decreases:
/// this is proved for every input rather than checked at run time.
#[verifier::rlimit(60)]
pub fn swap_base_output(ctx: &mut Swap, max_amount_in: u64, amount_out_less_fee: u64) -> (r:
    Result<SwapOutcome, GammaError>)
    requires
        old(ctx).wf(),
    ensures
        match r {
            Ok(out) => {
                let z = swap_direction(*old(ctx))->0;
                &&& swap_error(*old(ctx), max_amount_in, amount_out_less_fee) is None
                &&& swap_outcome_of(*old(ctx), z, amount_out_less_fee, out)
                &&& pool_after_swap(*old(ctx), z, amount_out_less_fee, final(ctx).pool_state)
                &&& reserve_in_of(final(ctx).pool_state, z) * reserve_out_of(final(ctx).pool_state, z)
                    >= reserve_in_of(old(ctx).pool_state, z) * reserve_out_of(old(ctx).pool_state, z)
                &&& *final(ctx) == (Swap { pool_state: final(ctx).pool_state, ..*old(ctx) })
            },
            Err(e) => {
                &&& swap_error(*old(ctx), max_amount_in, amount_out_less_fee) == Some(e)
                &&& *final(ctx) == *old(ctx)
            },
        },
{
    let ghost s = *ctx;
    let quote = match quote_swap_base_output(ctx, amount_out_less_fee) {
        Ok(q) => q,
        Err(e) => return Err(e),
    };
    let zero_for_one = quote.zero_for_one;
    let reserve_in = quote.reserve_in;
    let reserve_out = quote.reserve_out;
    let actual_amount_out = quote.actual_amount_out;
    let fee_rate = quote.result.dynamic_fee_rate;
    let result = quote.result;
    let ghost net = swap_net(s, zero_for_one, amount_out_less_fee);
    let ghost fee = swap_fee(s, zero_for_one, amount_out_less_fee);
    proof {
        lemma_ceil_div_bounds(
            reserve_in * actual_amount_out,
            reserve_out - actual_amount_out,
        );
        lemma_ceil_div_bounds(net * fee_rate, FEE_RATE_DENOMINATOR - fee_rate);
        lemma_fee_parts(fee, s.amm_config.protocol_fee_rate as int, s.amm_config.fund_fee_rate as int);
    }
    let curve_source = result.source_amount_swapped as u64;
    let input_transfer_amount = match curve_source.checked_add(ctx.input_transfer_fee) {
        Some(v) => v,
        None => return Err(GammaError::ArithmeticOverflow),
    };
    if input_transfer_amount > max_amount_in {
        return Err(GammaError::SlippageExceeded);
    }
    let dynamic_fee = result.dynamic_fee as u64;
    let mut protocol_fee = result.protocol_fee as u64;
    let mut fund_fee = result.fund_fee as u64;
    let mut source_amount_swapped = curve_source;
    let mut input_transfer = input_transfer_amount;
    let mut referral_amount: Option<u64> = None;
    if let Some(info) = ctx.referral {
        let from_protocol = info.get_referral_amount(protocol_fee);
        let from_fund = info.get_referral_amount(fund_fee);
        let amount = from_protocol.referral_amount + from_fund.referral_amount;
        if amount != 0 && ctx.referral_transfer_fee < amount {
            protocol_fee = from_protocol.amount_after_referral;
            fund_fee = from_fund.amount_after_referral;
            input_transfer = input_transfer - amount;
            source_amount_swapped = source_amount_swapped - amount;
            referral_amount = Some(amount);
        }
    }
    assert(protocol_fee == kept_protocol_fee(s, zero_for_one, amount_out_less_fee));
    assert(fund_fee == kept_fund_fee(s, zero_for_one, amount_out_less_fee));
    let partners = match track_partner_fees(
        &ctx.pool_state.partners,
        protocol_fee,
        ctx.pool_state.lp_supply,
        zero_for_one,
    ) {
        Ok(v) => v,
        Err(e) => return Err(e),
    };
    let p = &ctx.pool_state;
    let (protocol_in, fund_in, trade_fees_in, volume_in, volume_out) = if zero_for_one {
        (
            p.protocol_fees_token_0,
            p.fund_fees_token_0,
            p.cumulative_trade_fees_token_0,
            p.cumulative_volume_token_0,
            p.cumulative_volume_token_1,
        )
    } else {
        (
            p.protocol_fees_token_1,
            p.fund_fees_token_1,
            p.cumulative_trade_fees_token_1,
            p.cumulative_volume_token_1,
            p.cumulative_volume_token_0,
        )
    };
    let new_protocol = match protocol_in.checked_add(protocol_fee) {
        Some(v) => v,
        None => return Err(GammaError::ArithmeticOverflow),
    };
    let new_fund = match fund_in.checked_add(fund_fee) {
        Some(v) => v,
        None => return Err(GammaError::ArithmeticOverflow),
    };
    let new_trade_fees = match trade_fees_in.checked_add(dynamic_fee as u128) {
        Some(v) => v,
        None => return Err(GammaError::ArithmeticOverflow),
    };
    let new_volume_in = match volume_in.checked_add(input_transfer as u128) {
        Some(v) => v,
        None => return Err(GammaError::ArithmeticOverflow),
    };
    let new_volume_out = match volume_out.checked_add(actual_amount_out as u128) {
        Some(v) => v,
        None => return Err(GammaError::ArithmeticOverflow),
    };
    let gross_in = match reserve_in.checked_add(source_amount_swapped) {
        Some(v) => v,
        None => return Err(GammaError::ArithmeticOverflow),
    };
    let new_reserve_in = gross_in - fund_fee - protocol_fee;
    let new_reserve_out = reserve_out - actual_amount_out;
    proof {
        lemma_constant_product_kept(
            reserve_in as int,
            reserve_out as int,
            actual_amount_out as int,
            net,
            new_reserve_in as int,
        );
    }
    assert((p.token_1_vault_amount as int) * 4294967296 <= u128::MAX) by (nonlinear_arith);
    assert((p.token_0_vault_amount as int) * 4294967296 <= u128::MAX) by (nonlinear_arith);
    let token_0_price_x32 = p.token_1_vault_amount as u128 * 4294967296u128 / (
    p.token_0_vault_amount as u128);
    let token_1_price_x32 = p.token_0_vault_amount as u128 * 4294967296u128 / (
    p.token_1_vault_amount as u128);
    let pool = &mut ctx.pool_state;
    pool.partners = partners;
    if zero_for_one {
        pool.protocol_fees_token_0 = new_protocol;
        pool.fund_fees_token_0 = new_fund;
        pool.cumulative_trade_fees_token_0 = new_trade_fees;
        pool.cumulative_volume_token_0 = new_volume_in;
        pool.cumulative_volume_token_1 = new_volume_out;
        pool.token_0_vault_amount = new_reserve_in;
        pool.token_1_vault_amount = new_reserve_out;
    } else {
        pool.protocol_fees_token_1 = new_protocol;
        pool.fund_fees_token_1 = new_fund;
        pool.cumulative_trade_fees_token_1 = new_trade_fees;
        pool.cumulative_volume_token_1 = new_volume_in;
        pool.cumulative_volume_token_0 = new_volume_out;
        pool.token_1_vault_amount = new_reserve_in;
        pool.token_0_vault_amount = new_reserve_out;
    }
    pool.latest_dynamic_fee_rate = fee_rate;
    pool.recent_epoch = ctx.epoch;
    Ok(
        SwapOutcome {
            zero_for_one,
            reserve_in_before: reserve_in,
            reserve_out_before: reserve_out,
            source_amount_swapped: curve_source,
            input_transfer_amount: input_transfer,
            input_transfer_fee: ctx.input_transfer_fee,
            output_transfer_amount: actual_amount_out,
            output_transfer_fee: ctx.output_transfer_fee,
            referral_amount,
            dynamic_fee,
            dynamic_fee_rate: fee_rate,
            token_0_price_x32,
            token_1_price_x32,
        },
    )
}

/// The protocol and fund parts of a fee fit in the fee together.
proof fn lemma_fee_parts(fee: int, protocol_rate: int, fund_rate: int)
    requires
        fee >= 0,
        protocol_rate >= 0,
        fund_rate >= 0,
        protocol_rate + fund_rate <= FEE_RATE_DENOMINATOR,
    ensures
        0 <= fee_part(fee, protocol_rate),
        0 <= fee_part(fee, fund_rate),
        fee_part(fee, protocol_rate) + fee_part(fee, fund_rate) <= fee,
{
    let d = FEE_RATE_DENOMINATOR as int;
    assert(fee * protocol_rate + fee * fund_rate <= fee * d) by (nonlinear_arith)
        requires
            fee >= 0,
            protocol_rate + fund_rate <= d,
    ;
    assert(fee * protocol_rate >= 0 && fee * fund_rate >= 0) by (nonlinear_arith)
        requires
            fee >= 0,
            protocol_rate >= 0,
            fund_rate >= 0,
    ;
    assert(floor_div(fee * protocol_rate, d) + floor_div(fee * fund_rate, d) <= fee) by (
    nonlinear_arith)
        requires
            fee * protocol_rate + fee * fund_rate <= fee * d,
            fee * protocol_rate >= 0,
            fee * fund_rate >= 0,
            d == 1_000_000,
    ;
}

/// An input of at least the exact solution keeps the product of reserves.
pub proof fn lemma_constant_product_kept(
    reserve_in: int,
    reserve_out: int,
    amount_out: int,
    net: int,
    new_reserve_in: int,
)
    requires
        0 < amount_out < reserve_out,
        reserve_in >= 0,
        net == source_without_fee(reserve_in, reserve_out, amount_out),
        new_reserve_in >= reserve_in + net,
    ensures
        new_reserve_in * (reserve_out - amount_out) >= reserve_in * reserve_out,
{
    lemma_ceil_div_bounds(reserve_in * amount_out, reserve_out - amount_out);
    assert(new_reserve_in * (reserve_out - amount_out) >= reserve_in * reserve_out)
        by (nonlinear_arith)
        requires
            net * (reserve_out - amount_out) >= reserve_in * amount_out,
            new_reserve_in >= reserve_in + net,
            0 < amount_out < reserve_out,
    ;
}

} // verus!
