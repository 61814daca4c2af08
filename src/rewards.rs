use vstd::prelude::*;
use crate::error::GammaError;
use crate::math::{floor_div, lemma_floor_div_bounds};
use crate::state::{PoolState, Pubkey, RewardInfo, UserPoolLiquidity, UserRewardInfo};

verus! {

/// Reward released to a holder of `owned` of `supply` shares over the part
/// of `[from, to)` that lies inside the schedule: the schedule's total is
/// released evenly over its span, and the holder's part is proportional to
/// its shares. Both divisions round down.
pub open spec fn reward_increment(r: RewardInfo, from: int, to: int, owned: int, supply: int) -> int {
    let start = if from > r.start_at {
        from
    } else {
        r.start_at as int
    };
    let end = if to < r.end_at {
        to
    } else {
        r.end_at as int
    };
    if supply == 0 || r.end_at <= r.start_at || end <= start {
        0
    } else {
        let released = floor_div(
            r.total_to_disburse * (end - start),
            r.end_at - r.start_at,
        );
        floor_div(released * owned, supply)
    }
}

/// Where the accrual window of a participant starts: where the last one
/// ended, or, before the first accrual, at the participant's first deposit.
pub open spec fn accrual_start(u: UserRewardInfo, l: UserPoolLiquidity) -> int {
    if u.rewards_last_calculated_at == 0 {
        l.first_investment_at as int
    } else {
        u.rewards_last_calculated_at as int
    }
}

/// Computes the reward a holder of `owned` of `supply` shares earns over
/// `[from, to)` under `reward`.
pub fn calculate_reward_increment(
    reward: &RewardInfo,
    from: u64,
    to: u64,
    owned: u64,
    supply: u64,
) -> (r: Option<u64>)
    ensures
        match r {
            Some(v) => v == reward_increment(*reward, from as int, to as int, owned as int, supply as int),
            None => reward_increment(*reward, from as int, to as int, owned as int, supply as int)
                > u64::MAX,
        },
{
    let start = if from > reward.start_at {
        from
    } else {
        reward.start_at
    };
    let end = if to < reward.end_at {
        to
    } else {
        reward.end_at
    };
    if supply == 0 || reward.end_at <= reward.start_at || end <= start {
        return Some(0);
    }
    let span = (reward.end_at - reward.start_at) as u128;
    let elapsed = (end - start) as u128;
    assert(elapsed <= span);
    assert((reward.total_to_disburse as int) * (elapsed as int) <= (reward.total_to_disburse as int)
        * (span as int)) by (nonlinear_arith)
        requires
            elapsed <= span,
    ;
    assert((reward.total_to_disburse as int) * (span as int) <= u64::MAX * u64::MAX) by (
    nonlinear_arith)
        requires
            span <= u64::MAX,
    ;
    let released = reward.total_to_disburse as u128 * elapsed / span;
    proof {
        lemma_floor_div_bounds(reward.total_to_disburse * elapsed, span as int);
        assert(released <= reward.total_to_disburse) by (nonlinear_arith)
            requires
                released * span <= reward.total_to_disburse * elapsed,
                elapsed <= span,
                span > 0,
        ;
    }
    assert((released as int) * (owned as int) <= u64::MAX * u64::MAX) by (nonlinear_arith)
        requires
            released <= u64::MAX,
    ;
    let share = released * owned as u128 / supply as u128;
    if share > u64::MAX as u128 {
        None
    } else {
        Some(share as u64)
    }
}

/// Everything a reward accrual reads: who asks and who may, the participant,
/// the pool, the schedule, the participant's records, and the time.
#[derive(Clone, Debug)]
pub struct CalculateRewards {
    pub signer: Pubkey,
    /// The operator allowed to run accruals.
    pub admin: Pubkey,
    pub user: Pubkey,
    pub pool_state_key: Pubkey,
    pub pool_state: PoolState,
    pub reward_info_key: Pubkey,
    pub reward_info: RewardInfo,
    pub user_reward_info: UserRewardInfo,
    pub user_pool_liquidity: UserPoolLiquidity,
    pub current_time: u64,
}

/// Why an accrual fails, checked in this order; `None` when it goes through
/// (possibly as a no-op).
pub open spec fn rewards_error(c: CalculateRewards) -> Option<GammaError> {
    let u = c.user_reward_info;
    let l = c.user_pool_liquidity;
    if c.signer@ != c.admin@ {
        Some(GammaError::Unauthorized)
    } else if u.rewards_last_calculated_at >= c.current_time {
        None
    } else if l.lp_tokens_owned > u64::MAX {
        Some(GammaError::ArithmeticOverflow)
    } else if u.total_rewards + reward_increment(
        c.reward_info,
        accrual_start(u, l),
        c.current_time as int,
        l.lp_tokens_owned as int,
        c.pool_state.lp_supply as int,
    ) > u64::MAX {
        Some(GammaError::ArithmeticOverflow)
    } else {
        None
    }
}

/// The participant's reward record after an accrual at the current time that
/// is not a no-op.
pub open spec fn accrued(c: CalculateRewards) -> UserRewardInfo {
    let u = c.user_reward_info;
    let l = c.user_pool_liquidity;
    UserRewardInfo {
        rewards_last_calculated_at: c.current_time,
        total_rewards: (u.total_rewards + reward_increment(
            c.reward_info,
            accrual_start(u, l),
            c.current_time as int,
            l.lp_tokens_owned as int,
            c.pool_state.lp_supply as int,
        )) as u64,
        reward_info: c.reward_info_key,
        user: c.user,
        pool_state: c.pool_state_key,
    }
}

/// The accrual took `old` to `new` with result `r`.
pub open spec fn rewards_done(
    old: CalculateRewards,
    new: CalculateRewards,
    r: Result<(), GammaError>,
) -> bool {
    match r {
        Ok(()) => {
            &&& rewards_error(old) is None
            &&& if old.user_reward_info.rewards_last_calculated_at >= old.current_time {
                new == old
            } else {
                new == (CalculateRewards { user_reward_info: accrued(old), ..old })
            }
        },
        Err(e) => rewards_error(old) == Some(e) && new == old,
    }
}

/// Brings a participant's claimable reward up to the current time. Only the
/// designated operator may run it. A call at or before the time of the last
/// accrual changes nothing. The first accrual counts from the participant's
/// first deposit, so that a late deposit earns nothing for the time before it.
pub fn calculate_rewards(ctx: &mut CalculateRewards) -> (r: Result<(), GammaError>)
    ensures
        rewards_done(*old(ctx), *final(ctx), r),
{
    if !ctx.signer.same(&ctx.admin) {
        return Err(GammaError::Unauthorized);
    }
    let current_time = ctx.current_time;
    if ctx.user_reward_info.rewards_last_calculated_at >= current_time {
        return Ok(());
    }
    let from = if ctx.user_reward_info.rewards_last_calculated_at == 0 {
        ctx.user_pool_liquidity.first_investment_at
    } else {
        ctx.user_reward_info.rewards_last_calculated_at
    };
    if ctx.user_pool_liquidity.lp_tokens_owned > u64::MAX as u128 {
        return Err(GammaError::ArithmeticOverflow);
    }
    let increment = match calculate_reward_increment(
        &ctx.reward_info,
        from,
        current_time,
        ctx.user_pool_liquidity.lp_tokens_owned as u64,
        ctx.pool_state.lp_supply,
    ) {
        Some(v) => v,
        None => return Err(GammaError::ArithmeticOverflow),
    };
    let total = match ctx.user_reward_info.total_rewards.checked_add(increment) {
        Some(v) => v,
        None => return Err(GammaError::ArithmeticOverflow),
    };
    ctx.user_reward_info = UserRewardInfo {
        rewards_last_calculated_at: current_time,
        total_rewards: total,
        reward_info: ctx.reward_info_key,
        user: ctx.user,
        pool_state: ctx.pool_state_key,
    };
    Ok(())
}

} // verus!
