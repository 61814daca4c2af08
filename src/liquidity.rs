use vstd::prelude::*;
use crate::curve::{lp_to_token, lp_tokens_to_trading_tokens, RoundDirection};
use crate::math::lemma_ceil_div_bounds;
use crate::error::GammaError;
use crate::state::{
    status_enabled, PartnerInfo, PoolState, UserPoolLiquidity, STATUS_DEPOSIT, STATUS_WITHDRAW,
};

verus! {

/// `i` is the first partner slot whose identifier is `id`.
pub open spec fn first_match(ps: Seq<PartnerInfo>, id: u64, i: int) -> bool {
    &&& 0 <= i < ps.len()
    &&& ps[i].partner_id == id
    &&& forall|j: int| 0 <= j < i ==> ps[j].partner_id != id
}

/// The slot of the partner a participant is affiliated with, if the pool
/// tracks that partner.
pub open spec fn linked_partner_index(ps: Seq<PartnerInfo>, partner: Option<u64>) -> Option<int> {
    match partner {
        Some(id) => if exists|i: int| first_match(ps, id, i) {
            Some(choose|i: int| first_match(ps, id, i))
        } else {
            None
        },
        None => None,
    }
}

proof fn lemma_first_match_unique(ps: Seq<PartnerInfo>, id: u64, i: int, k: int)
    requires
        first_match(ps, id, i),
        first_match(ps, id, k),
    ensures
        i == k,
{
    if i < k {
        assert(ps[i].partner_id != id);
    } else if k < i {
        assert(ps[k].partner_id != id);
    }
}

/// Finds the first partner slot with identifier `id`.
fn find_partner(ps: &Vec<PartnerInfo>, id: u64) -> (r: Option<usize>)
    ensures
        r == (match linked_partner_index(ps@, Some(id)) {
            Some(i) => Some(i as usize),
            None => None,
        }),
        r matches Some(i) ==> first_match(ps@, id, i as int),
{
    let mut i: usize = 0;
    while i < ps.len()
        invariant
            i <= ps@.len(),
            forall|j: int| 0 <= j < i ==> ps@[j].partner_id != id,
        decreases ps@.len() - i,
    {
        if ps[i].partner_id == id {
            assert(first_match(ps@, id, i as int));
            proof {
                assert(exists|k: int| first_match(ps@, id, k));
                let k = choose|k: int| first_match(ps@, id, k);
                lemma_first_match_unique(ps@, id, i as int, k);
                assert(linked_partner_index(ps@, Some(id)) == Some(k));
            }
            return Some(i);
        }
        i += 1;
    }
    None
}

/// Moves `lp` shares into (`add`) or out of (`!add`) the linked share count
/// of the participant's partner, if the pool tracks it.
fn relink_partner(ps: &mut Vec<PartnerInfo>, partner: Option<u64>, lp: u64, add: bool) -> (r:
    Result<(), GammaError>)
    ensures
        match linked_partner_index(old(ps)@, partner) {
            None => r is Ok && *final(ps) == *old(ps),
            Some(i) => {
                let linked = old(ps)@[i].lp_token_linked_with_partner;
                let moved = if add {
                    linked + lp
                } else {
                    linked - lp
                };
                if moved > u64::MAX {
                    r == Err::<(), GammaError>(GammaError::ArithmeticOverflow) && *final(ps)
                        == *old(ps)
                } else if moved < 0 {
                    r == Err::<(), GammaError>(GammaError::ArithmeticUnderflow) && *final(ps)
                        == *old(ps)
                } else {
                    r is Ok && final(ps)@ == old(ps)@.update(
                        i,
                        PartnerInfo { lp_token_linked_with_partner: moved as u64, ..old(ps)@[i] },
                    )
                }
            },
        },
{
    let id = match partner {
        Some(id) => id,
        None => return Ok(()),
    };
    let i = match find_partner(ps, id) {
        Some(i) => i,
        None => return Ok(()),
    };
    let p = ps[i];
    let linked = if add {
        match p.lp_token_linked_with_partner.checked_add(lp) {
            Some(v) => v,
            None => return Err(GammaError::ArithmeticOverflow),
        }
    } else {
        match p.lp_token_linked_with_partner.checked_sub(lp) {
            Some(v) => v,
            None => return Err(GammaError::ArithmeticUnderflow),
        }
    };
    ps.set(i, PartnerInfo { lp_token_linked_with_partner: linked, ..p });
    Ok(())
}

/// A participant's deposit into or withdrawal from one pool, with what the
/// host reports: the epoch, and the transfer overheads of the asset amounts
/// the operation moves (as returned by `deposit_token_amounts` or
/// `withdraw_token_amounts`).
#[derive(Clone, Debug)]
pub struct Deposit {
    pub pool_state: PoolState,
    pub user_pool_liquidity: UserPoolLiquidity,
    pub epoch: u64,
    pub token_0_transfer_fee: u64,
    pub token_1_transfer_fee: u64,
}

/// What a deposit or withdrawal settled, for the transfer collaborator and
/// the event stream.
#[derive(Clone, Copy, Debug)]
pub struct LpChange {
    pub lp_amount_before: u64,
    pub token_0_vault_before: u64,
    pub token_1_vault_before: u64,
    /// Asset 0 added to or taken from the reserve.
    pub token_0_amount: u64,
    pub token_1_amount: u64,
    pub token_0_transfer_fee: u64,
    pub token_1_transfer_fee: u64,
    /// Asset 0 the participant sends (deposit) or receives (withdrawal).
    pub transfer_token_0_amount: u64,
    pub transfer_token_1_amount: u64,
}

/// Asset amounts `lp` shares of pool `p` stand for, rounded as `round` says.
pub open spec fn amount_0_of(p: PoolState, lp: int, round: RoundDirection) -> int {
    lp_to_token(lp, p.lp_supply as int, p.token_0_vault_amount as int, round)
}

pub open spec fn amount_1_of(p: PoolState, lp: int, round: RoundDirection) -> int {
    lp_to_token(lp, p.lp_supply as int, p.token_1_vault_amount as int, round)
}

/// Why share amounts cannot be priced for a conversion, if they cannot.
pub open spec fn amounts_error(p: PoolState, lp: int, round: RoundDirection) -> Option<GammaError> {
    if p.lp_supply == 0 || amount_0_of(p, lp, round) == 0 || amount_1_of(p, lp, round) == 0 {
        Some(GammaError::ZeroTradeAmount)
    } else if amount_0_of(p, lp, round) > u64::MAX || amount_1_of(p, lp, round) > u64::MAX {
        Some(GammaError::ArithmeticOverflow)
    } else {
        None
    }
}

fn token_amounts(p: &PoolState, lp_token_amount: u64, round: RoundDirection) -> (r: Result<
    (u64, u64),
    GammaError,
>)
    ensures
        match r {
            Ok((a0, a1)) => amounts_error(*p, lp_token_amount as int, round) is None && a0
                == amount_0_of(*p, lp_token_amount as int, round) && a1 == amount_1_of(
                *p,
                lp_token_amount as int,
                round,
            ),
            Err(e) => amounts_error(*p, lp_token_amount as int, round) == Some(e),
        },
{
    let results = match lp_tokens_to_trading_tokens(
        lp_token_amount,
        p.lp_supply,
        p.token_0_vault_amount,
        p.token_1_vault_amount,
        round,
    ) {
        Some(v) => v,
        None => return Err(GammaError::ZeroTradeAmount),
    };
    if results.token_0_amount == 0 || results.token_1_amount == 0 {
        return Err(GammaError::ZeroTradeAmount);
    }
    if results.token_0_amount > u64::MAX as u128 || results.token_1_amount > u64::MAX as u128 {
        return Err(GammaError::ArithmeticOverflow);
    }
    Ok((results.token_0_amount as u64, results.token_1_amount as u64))
}

/// Asset amounts a deposit of `lp_token_amount` shares requires, rounded up,
/// before transfer overheads.
pub fn deposit_token_amounts(p: &PoolState, lp_token_amount: u64) -> (r: Result<
    (u64, u64),
    GammaError,
>)
    ensures
        match r {
            Ok((a0, a1)) => amounts_error(*p, lp_token_amount as int, RoundDirection::Ceiling)
                is None && a0 == amount_0_of(*p, lp_token_amount as int, RoundDirection::Ceiling)
                && a1 == amount_1_of(*p, lp_token_amount as int, RoundDirection::Ceiling),
            Err(e) => amounts_error(*p, lp_token_amount as int, RoundDirection::Ceiling) == Some(
                e,
            ),
        },
{
    token_amounts(p, lp_token_amount, RoundDirection::Ceiling)
}

/// Asset amounts a withdrawal of `lp_token_amount` shares returns, rounded
/// down, before transfer overheads.
pub fn withdraw_token_amounts(p: &PoolState, lp_token_amount: u64) -> (r: Result<
    (u64, u64),
    GammaError,
>)
    ensures
        match r {
            Ok((a0, a1)) => amounts_error(*p, lp_token_amount as int, RoundDirection::Floor)
                is None && a0 == amount_0_of(*p, lp_token_amount as int, RoundDirection::Floor)
                && a1 == amount_1_of(*p, lp_token_amount as int, RoundDirection::Floor),
            Err(e) => amounts_error(*p, lp_token_amount as int, RoundDirection::Floor) == Some(e),
        },
{
    token_amounts(p, lp_token_amount, RoundDirection::Floor)
}

/// The partner slots after `lp` shares move into (`add`) or out of the
/// participant's partner, or the error that stops it.
pub open spec fn partners_relinked(
    ps: Seq<PartnerInfo>,
    partner: Option<u64>,
    lp: int,
    add: bool,
) -> Result<Seq<PartnerInfo>, GammaError> {
    match linked_partner_index(ps, partner) {
        None => Ok(ps),
        Some(i) => {
            let moved = if add {
                ps[i].lp_token_linked_with_partner + lp
            } else {
                ps[i].lp_token_linked_with_partner - lp
            };
            if moved > u64::MAX {
                Err(GammaError::ArithmeticOverflow)
            } else if moved < 0 {
                Err(GammaError::ArithmeticUnderflow)
            } else {
                Ok(ps.update(i, PartnerInfo { lp_token_linked_with_partner: moved as u64, ..ps[i] }))
            }
        },
    }
}

/// Why a deposit of `lp` shares fails, checked in this order; `None` when it
/// goes through.
pub open spec fn deposit_error(d: Deposit, lp: u64, max_0: u64, max_1: u64) -> Option<GammaError> {
    let p = d.pool_state;
    let u = d.user_pool_liquidity;
    let a0 = amount_0_of(p, lp as int, RoundDirection::Ceiling);
    let a1 = amount_1_of(p, lp as int, RoundDirection::Ceiling);
    if lp == 0 {
        Some(GammaError::ZeroTradeAmount)
    } else if !status_enabled(p.status, STATUS_DEPOSIT) {
        Some(GammaError::OperationDisabled)
    } else if p.lp_supply == 0 || a0 == 0 || a1 == 0 {
        Some(GammaError::ZeroTradeAmount)
    } else if a0 + d.token_0_transfer_fee > max_0 || a1 + d.token_1_transfer_fee > max_1 {
        Some(GammaError::SlippageExceeded)
    } else if p.token_0_vault_amount + a0 > u64::MAX || p.token_1_vault_amount + a1 > u64::MAX
        || p.lp_supply + lp > u64::MAX || u.token_0_deposited + a0 > u128::MAX
        || u.token_1_deposited + a1 > u128::MAX || u.lp_tokens_owned + lp > u128::MAX {
        Some(GammaError::ArithmeticOverflow)
    } else if partners_relinked(p.partners@, u.partner, lp as int, true) is Err {
        Some(GammaError::ArithmeticOverflow)
    } else {
        None
    }
}

/// A deposit of `lp` shares took `old` to `new` with result `r`: on success
/// the reserves grow by the rounded-up amounts, the share supply and the
/// participant's shares by `lp`; on failure nothing changed.
pub open spec fn deposit_done(
    old: Deposit,
    new: Deposit,
    lp: u64,
    max_0: u64,
    max_1: u64,
    r: Result<LpChange, GammaError>,
) -> bool {
    let p = old.pool_state;
    let u = old.user_pool_liquidity;
    let a0 = amount_0_of(p, lp as int, RoundDirection::Ceiling);
    let a1 = amount_1_of(p, lp as int, RoundDirection::Ceiling);
    match r {
        Ok(c) => {
            &&& deposit_error(old, lp, max_0, max_1) is None
            &&& partners_relinked(p.partners@, u.partner, lp as int, true) == Ok::<Seq<PartnerInfo>, GammaError>(new.pool_state.partners@)
            &&& new.pool_state == (PoolState {
                token_0_vault_amount: (p.token_0_vault_amount + a0) as u64,
                token_1_vault_amount: (p.token_1_vault_amount + a1) as u64,
                lp_supply: (p.lp_supply + lp) as u64,
                recent_epoch: old.epoch,
                partners: new.pool_state.partners,
                ..p
            })
            &&& new.user_pool_liquidity == (UserPoolLiquidity {
                token_0_deposited: (u.token_0_deposited + a0) as u128,
                token_1_deposited: (u.token_1_deposited + a1) as u128,
                lp_tokens_owned: (u.lp_tokens_owned + lp) as u128,
                ..u
            })
            &&& new.epoch == old.epoch
            &&& new.token_0_transfer_fee == old.token_0_transfer_fee
            &&& new.token_1_transfer_fee == old.token_1_transfer_fee
            &&& c == (LpChange {
                lp_amount_before: p.lp_supply,
                token_0_vault_before: p.token_0_vault_amount,
                token_1_vault_before: p.token_1_vault_amount,
                token_0_amount: a0 as u64,
                token_1_amount: a1 as u64,
                token_0_transfer_fee: old.token_0_transfer_fee,
                token_1_transfer_fee: old.token_1_transfer_fee,
                transfer_token_0_amount: (a0 + old.token_0_transfer_fee) as u64,
                transfer_token_1_amount: (a1 + old.token_1_transfer_fee) as u64,
            })
        },
        Err(e) => deposit_error(old, lp, max_0, max_1) == Some(e) && new == old,
    }
}

/// Deposits `lp_token_amount` new shares: the asset amounts they stand for
/// are rounded up, their transfer overheads added, and the totals held
/// against the caller's maxima before anything changes. A total beyond the
/// 64-bit range exceeds any maximum, so it is a slippage error too.
pub fn deposit_to_gamma_pool(
    accounts: &mut Deposit,
    lp_token_amount: u64,
    maximum_token_0_amount: u64,
    maximum_token_1_amount: u64,
) -> (r: Result<LpChange, GammaError>)
    ensures
        deposit_done(
            *old(accounts),
            *final(accounts),
            lp_token_amount,
            maximum_token_0_amount,
            maximum_token_1_amount,
            r,
        ),
{
    if lp_token_amount == 0 {
        return Err(GammaError::ZeroTradeAmount);
    }
    if !accounts.pool_state.get_status_by_bit(STATUS_DEPOSIT) {
        return Err(GammaError::OperationDisabled);
    }
    let amounts = match lp_tokens_to_trading_tokens(
        lp_token_amount,
        accounts.pool_state.lp_supply,
        accounts.pool_state.token_0_vault_amount,
        accounts.pool_state.token_1_vault_amount,
        RoundDirection::Ceiling,
    ) {
        Some(v) => v,
        None => return Err(GammaError::ZeroTradeAmount),
    };
    if amounts.token_0_amount == 0 || amounts.token_1_amount == 0 {
        return Err(GammaError::ZeroTradeAmount);
    }
    proof {
        lemma_ceil_div_bounds(
            lp_token_amount * accounts.pool_state.token_0_vault_amount,
            accounts.pool_state.lp_supply as int,
        );
        lemma_ceil_div_bounds(
            lp_token_amount * accounts.pool_state.token_1_vault_amount,
            accounts.pool_state.lp_supply as int,
        );
        assert(lp_token_amount * accounts.pool_state.token_0_vault_amount <= u64::MAX * u64::MAX)
            by (nonlinear_arith);
        assert(lp_token_amount * accounts.pool_state.token_1_vault_amount <= u64::MAX * u64::MAX)
            by (nonlinear_arith);
    }
    // Compared in 128 bits: a need beyond the 64-bit range exceeds any maximum.
    let need_0 = amounts.token_0_amount + accounts.token_0_transfer_fee as u128;
    let need_1 = amounts.token_1_amount + accounts.token_1_transfer_fee as u128;
    if need_0 > maximum_token_0_amount as u128 || need_1 > maximum_token_1_amount as u128 {
        return Err(GammaError::SlippageExceeded);
    }
    let token_0_amount = amounts.token_0_amount as u64;
    let token_1_amount = amounts.token_1_amount as u64;
    let transfer_token_0_amount = need_0 as u64;
    let transfer_token_1_amount = need_1 as u64;
    let p = &accounts.pool_state;
    let u = &accounts.user_pool_liquidity;
    let change = LpChange {
        lp_amount_before: p.lp_supply,
        token_0_vault_before: p.token_0_vault_amount,
        token_1_vault_before: p.token_1_vault_amount,
        token_0_amount,
        token_1_amount,
        token_0_transfer_fee: accounts.token_0_transfer_fee,
        token_1_transfer_fee: accounts.token_1_transfer_fee,
        transfer_token_0_amount,
        transfer_token_1_amount,
    };
    let (reserve_0, reserve_1, supply) = match (
        p.token_0_vault_amount.checked_add(token_0_amount),
        p.token_1_vault_amount.checked_add(token_1_amount),
        p.lp_supply.checked_add(lp_token_amount),
    ) {
        (Some(a), Some(b), Some(c)) => (a, b, c),
        _ => return Err(GammaError::ArithmeticOverflow),
    };
    let (deposited_0, deposited_1, owned) = match (
        u.token_0_deposited.checked_add(token_0_amount as u128),
        u.token_1_deposited.checked_add(token_1_amount as u128),
        u.lp_tokens_owned.checked_add(lp_token_amount as u128),
    ) {
        (Some(a), Some(b), Some(c)) => (a, b, c),
        _ => return Err(GammaError::ArithmeticOverflow),
    };
    let partner = u.partner;
    match relink_partner(&mut accounts.pool_state.partners, partner, lp_token_amount, true) {
        Ok(()) => {},
        Err(e) => return Err(e),
    }
    accounts.pool_state.token_0_vault_amount = reserve_0;
    accounts.pool_state.token_1_vault_amount = reserve_1;
    accounts.pool_state.lp_supply = supply;
    accounts.pool_state.recent_epoch = accounts.epoch;
    accounts.user_pool_liquidity.token_0_deposited = deposited_0;
    accounts.user_pool_liquidity.token_1_deposited = deposited_1;
    accounts.user_pool_liquidity.lp_tokens_owned = owned;
    Ok(change)
}

/// Deposits `lp_token_amount` new shares; see `deposit_to_gamma_pool`.
pub fn deposit(
    accounts: &mut Deposit,
    lp_token_amount: u64,
    maximum_token_0_amount: u64,
    maximum_token_1_amount: u64,
) -> (r: Result<LpChange, GammaError>)
    ensures
        deposit_done(
            *old(accounts),
            *final(accounts),
            lp_token_amount,
            maximum_token_0_amount,
            maximum_token_1_amount,
            r,
        ),
{
    deposit_to_gamma_pool(accounts, lp_token_amount, maximum_token_0_amount, maximum_token_1_amount)
}

/// A withdrawal reads and changes the same records as a deposit.
pub type Withdraw = Deposit;

/// Why a withdrawal of `lp` shares fails, checked in this order; `None` when
/// it goes through.
pub open spec fn withdraw_error(d: Withdraw, lp: u64, min_0: u64, min_1: u64) -> Option<GammaError> {
    let p = d.pool_state;
    let u = d.user_pool_liquidity;
    let a0 = amount_0_of(p, lp as int, RoundDirection::Floor);
    let a1 = amount_1_of(p, lp as int, RoundDirection::Floor);
    if lp == 0 {
        Some(GammaError::ZeroTradeAmount)
    } else if !status_enabled(p.status, STATUS_WITHDRAW) {
        Some(GammaError::OperationDisabled)
    } else if lp > u.lp_tokens_owned {
        Some(GammaError::ArithmeticUnderflow)
    } else if amounts_error(p, lp as int, RoundDirection::Floor) is Some {
        amounts_error(p, lp as int, RoundDirection::Floor)
    } else if a0 < d.token_0_transfer_fee || a1 < d.token_1_transfer_fee {
        Some(GammaError::ArithmeticUnderflow)
    } else if a0 - d.token_0_transfer_fee < min_0 || a1 - d.token_1_transfer_fee < min_1 {
        Some(GammaError::SlippageExceeded)
    } else if a0 > p.token_0_vault_amount || a1 > p.token_1_vault_amount || lp > p.lp_supply {
        Some(GammaError::ArithmeticUnderflow)
    } else if u.token_0_withdrawn + a0 > u128::MAX || u.token_1_withdrawn + a1 > u128::MAX {
        Some(GammaError::ArithmeticOverflow)
    } else if partners_relinked(p.partners@, u.partner, lp as int, false) is Err {
        Some(GammaError::ArithmeticUnderflow)
    } else {
        None
    }
}

/// A withdrawal of `lp` shares took `old` to `new` with result `r`: on
/// success the reserves shrink by the rounded-down amounts, the share supply
/// and the participant's shares by `lp`; on failure nothing changed.
pub open spec fn withdraw_done(
    old: Withdraw,
    new: Withdraw,
    lp: u64,
    min_0: u64,
    min_1: u64,
    r: Result<LpChange, GammaError>,
) -> bool {
    let p = old.pool_state;
    let u = old.user_pool_liquidity;
    let a0 = amount_0_of(p, lp as int, RoundDirection::Floor);
    let a1 = amount_1_of(p, lp as int, RoundDirection::Floor);
    match r {
        Ok(c) => {
            &&& withdraw_error(old, lp, min_0, min_1) is None
            &&& partners_relinked(p.partners@, u.partner, lp as int, false) == Ok::<
                Seq<PartnerInfo>,
                GammaError,
            >(new.pool_state.partners@)
            &&& new.pool_state == (PoolState {
                token_0_vault_amount: (p.token_0_vault_amount - a0) as u64,
                token_1_vault_amount: (p.token_1_vault_amount - a1) as u64,
                lp_supply: (p.lp_supply - lp) as u64,
                recent_epoch: old.epoch,
                partners: new.pool_state.partners,
                ..p
            })
            &&& new.user_pool_liquidity == (UserPoolLiquidity {
                token_0_withdrawn: (u.token_0_withdrawn + a0) as u128,
                token_1_withdrawn: (u.token_1_withdrawn + a1) as u128,
                lp_tokens_owned: (u.lp_tokens_owned - lp) as u128,
                ..u
            })
            &&& new.epoch == old.epoch
            &&& new.token_0_transfer_fee == old.token_0_transfer_fee
            &&& new.token_1_transfer_fee == old.token_1_transfer_fee
            &&& c == (LpChange {
                lp_amount_before: p.lp_supply,
                token_0_vault_before: p.token_0_vault_amount,
                token_1_vault_before: p.token_1_vault_amount,
                token_0_amount: a0 as u64,
                token_1_amount: a1 as u64,
                token_0_transfer_fee: old.token_0_transfer_fee,
                token_1_transfer_fee: old.token_1_transfer_fee,
                transfer_token_0_amount: (a0 - old.token_0_transfer_fee) as u64,
                transfer_token_1_amount: (a1 - old.token_1_transfer_fee) as u64,
            })
        },
        Err(e) => withdraw_error(old, lp, min_0, min_1) == Some(e) && new == old,
    }
}

/// Redeems `lp_token_amount` of the participant's shares: the asset amounts
/// they stand for are rounded down, and what the participant receives after
/// transfer overheads is held against the caller's minima before anything
/// changes.
pub fn withdraw(
    accounts: &mut Withdraw,
    lp_token_amount: u64,
    minimum_token_0_amount: u64,
    minimum_token_1_amount: u64,
) -> (r: Result<LpChange, GammaError>)
    ensures
        withdraw_done(
            *old(accounts),
            *final(accounts),
            lp_token_amount,
            minimum_token_0_amount,
            minimum_token_1_amount,
            r,
        ),
{
    if lp_token_amount == 0 {
        return Err(GammaError::ZeroTradeAmount);
    }
    if !accounts.pool_state.get_status_by_bit(STATUS_WITHDRAW) {
        return Err(GammaError::OperationDisabled);
    }
    if lp_token_amount as u128 > accounts.user_pool_liquidity.lp_tokens_owned {
        return Err(GammaError::ArithmeticUnderflow);
    }
    let (token_0_amount, token_1_amount) = match withdraw_token_amounts(
        &accounts.pool_state,
        lp_token_amount,
    ) {
        Ok(v) => v,
        Err(e) => return Err(e),
    };
    let (receive_0, receive_1) = match (
        token_0_amount.checked_sub(accounts.token_0_transfer_fee),
        token_1_amount.checked_sub(accounts.token_1_transfer_fee),
    ) {
        (Some(a), Some(b)) => (a, b),
        _ => return Err(GammaError::ArithmeticUnderflow),
    };
    if receive_0 < minimum_token_0_amount || receive_1 < minimum_token_1_amount {
        return Err(GammaError::SlippageExceeded);
    }
    let p = &accounts.pool_state;
    let u = &accounts.user_pool_liquidity;
    let change = LpChange {
        lp_amount_before: p.lp_supply,
        token_0_vault_before: p.token_0_vault_amount,
        token_1_vault_before: p.token_1_vault_amount,
        token_0_amount,
        token_1_amount,
        token_0_transfer_fee: accounts.token_0_transfer_fee,
        token_1_transfer_fee: accounts.token_1_transfer_fee,
        transfer_token_0_amount: receive_0,
        transfer_token_1_amount: receive_1,
    };
    let (reserve_0, reserve_1, supply) = match (
        p.token_0_vault_amount.checked_sub(token_0_amount),
        p.token_1_vault_amount.checked_sub(token_1_amount),
        p.lp_supply.checked_sub(lp_token_amount),
    ) {
        (Some(a), Some(b), Some(c)) => (a, b, c),
        _ => return Err(GammaError::ArithmeticUnderflow),
    };
    let (withdrawn_0, withdrawn_1) = match (
        u.token_0_withdrawn.checked_add(token_0_amount as u128),
        u.token_1_withdrawn.checked_add(token_1_amount as u128),
    ) {
        (Some(a), Some(b)) => (a, b),
        _ => return Err(GammaError::ArithmeticOverflow),
    };
    let owned = u.lp_tokens_owned - lp_token_amount as u128;
    let partner = u.partner;
    match relink_partner(&mut accounts.pool_state.partners, partner, lp_token_amount, false) {
        Ok(()) => {},
        Err(e) => return Err(e),
    }
    accounts.pool_state.token_0_vault_amount = reserve_0;
    accounts.pool_state.token_1_vault_amount = reserve_1;
    accounts.pool_state.lp_supply = supply;
    accounts.pool_state.recent_epoch = accounts.epoch;
    accounts.user_pool_liquidity.token_0_withdrawn = withdrawn_0;
    accounts.user_pool_liquidity.token_1_withdrawn = withdrawn_1;
    accounts.user_pool_liquidity.lp_tokens_owned = owned;
    Ok(change)
}

} // verus!
