use vstd::prelude::*;
use crate::error::GammaError;
use crate::math::{floor_div, lemma_floor_div_bounds};
use crate::state::{PartnerInfo, FEE_SHARE_SCALE, REFERRAL_SHARE_DENOMINATOR};

verus! {

/// The part of `fee` redirected to a referrer who is owed `share` over
/// `REFERRAL_SHARE_DENOMINATOR`, rounded down.
pub open spec fn referral_cut(fee: int, share: int) -> int {
    floor_div(fee * share, REFERRAL_SHARE_DENOMINATOR as int)
}

/// A fee split into what the referrer receives and what stays.
#[derive(Clone, Copy, Debug)]
pub struct ReferralResult {
    pub referral_amount: u64,
    pub amount_after_referral: u64,
}

/// A referral relationship of a trade.
#[derive(Clone, Copy, Debug)]
pub struct ReferralInfo {
    /// The referrer's part of the protocol and fund fees, over
    /// `REFERRAL_SHARE_DENOMINATOR`.
    pub share: u64,
}

impl ReferralInfo {
    pub open spec fn wf(&self) -> bool {
        self.share <= REFERRAL_SHARE_DENOMINATOR
    }

    /// Splits `fee` into the referrer's cut and the rest.
    pub fn get_referral_amount(&self, fee: u64) -> (r: ReferralResult)
        requires
            self.wf(),
        ensures
            r.referral_amount == referral_cut(fee as int, self.share as int),
            r.referral_amount + r.amount_after_referral == fee,
    {
        assert((fee as int) * (self.share as int) <= (fee as int) * REFERRAL_SHARE_DENOMINATOR)
            by (nonlinear_arith)
            requires
                self.share <= REFERRAL_SHARE_DENOMINATOR,
        ;
        let p = fee as u128 * self.share as u128;
        let cut = p / REFERRAL_SHARE_DENOMINATOR as u128;
        proof {
            lemma_floor_div_bounds(p as int, REFERRAL_SHARE_DENOMINATOR as int);
            assert(cut * REFERRAL_SHARE_DENOMINATOR <= fee * REFERRAL_SHARE_DENOMINATOR);
        }
        ReferralResult { referral_amount: cut as u64, amount_after_referral: fee - cut as u64 }
    }
}

/// The part of `protocol_fee` attributed to partner `p`: its share of all
/// shares, in `FEE_SHARE_SCALE` units, applied to the fee; `None` where a
/// step overflows or the pool has no shares.
pub open spec fn partner_fee_of(p: PartnerInfo, protocol_fee: int, lp_supply: int) -> Option<int> {
    if p.lp_token_linked_with_partner * FEE_SHARE_SCALE > u64::MAX || lp_supply == 0 {
        None
    } else {
        let tvl_share = floor_div(p.lp_token_linked_with_partner * FEE_SHARE_SCALE, lp_supply);
        if protocol_fee * tvl_share > u64::MAX {
            None
        } else {
            Some(floor_div(protocol_fee * tvl_share, FEE_SHARE_SCALE as int))
        }
    }
}

/// Partner `p` after `protocol_fee` of a trade in the given direction is
/// attributed to it; `None` where a step overflows.
pub open spec fn partner_after(
    p: PartnerInfo,
    protocol_fee: int,
    lp_supply: int,
    zero_for_one: bool,
) -> Option<PartnerInfo> {
    match partner_fee_of(p, protocol_fee, lp_supply) {
        None => None,
        Some(f) => if zero_for_one {
            if p.cumulative_fee_total_times_tvl_share_token_0 + f > u64::MAX {
                None
            } else {
                Some(
                    PartnerInfo {
                        cumulative_fee_total_times_tvl_share_token_0:
                            (p.cumulative_fee_total_times_tvl_share_token_0 + f) as u64,
                        ..p
                    },
                )
            }
        } else {
            if p.cumulative_fee_total_times_tvl_share_token_1 + f > u64::MAX {
                None
            } else {
                Some(
                    PartnerInfo {
                        cumulative_fee_total_times_tvl_share_token_1:
                            (p.cumulative_fee_total_times_tvl_share_token_1 + f) as u64,
                        ..p
                    },
                )
            }
        },
    }
}

/// Every partner's attribution succeeds.
pub open spec fn partners_trackable(
    ps: Seq<PartnerInfo>,
    protocol_fee: int,
    lp_supply: int,
    zero_for_one: bool,
) -> bool {
    forall|i: int| 0 <= i < ps.len() ==> partner_after(ps[i], protocol_fee, lp_supply, zero_for_one) is Some
}

/// The partners after attribution, where every attribution succeeds.
pub open spec fn partners_tracked(
    ps: Seq<PartnerInfo>,
    qs: Seq<PartnerInfo>,
    protocol_fee: int,
    lp_supply: int,
    zero_for_one: bool,
) -> bool {
    &&& qs.len() == ps.len()
    &&& forall|i: int|
        0 <= i < ps.len() ==> partner_after(ps[i], protocol_fee, lp_supply, zero_for_one)
            == Some(#[trigger] qs[i])
}

/// Attributes one partner's part of `protocol_fee`.
fn track_partner(p: &PartnerInfo, protocol_fee: u64, lp_supply: u64, zero_for_one: bool) -> (r:
    Option<PartnerInfo>)
    ensures
        r == partner_after(*p, protocol_fee as int, lp_supply as int, zero_for_one),
{
    let scaled = p.lp_token_linked_with_partner.checked_mul(FEE_SHARE_SCALE)?;
    let tvl_share = scaled.checked_div(lp_supply)?;
    let product = protocol_fee.checked_mul(tvl_share)?;
    let partner_fee = product / FEE_SHARE_SCALE;
    if zero_for_one {
        let total = p.cumulative_fee_total_times_tvl_share_token_0.checked_add(partner_fee)?;
        Some(PartnerInfo { cumulative_fee_total_times_tvl_share_token_0: total, ..*p })
    } else {
        let total = p.cumulative_fee_total_times_tvl_share_token_1.checked_add(partner_fee)?;
        Some(PartnerInfo { cumulative_fee_total_times_tvl_share_token_1: total, ..*p })
    }
}

/// Attributes to each partner its pro-rata part of `protocol_fee`, on the
/// side of the trade's input asset. Metrics only: no amount moves.
pub fn track_partner_fees(
    partners: &Vec<PartnerInfo>,
    protocol_fee: u64,
    lp_supply: u64,
    zero_for_one: bool,
) -> (r: Result<Vec<PartnerInfo>, GammaError>)
    ensures
        r is Ok <==> partners_trackable(partners@, protocol_fee as int, lp_supply as int, zero_for_one),
        r matches Ok(v) ==> partners_tracked(
            partners@,
            v@,
            protocol_fee as int,
            lp_supply as int,
            zero_for_one,
        ),
        r matches Err(e) ==> e == GammaError::ArithmeticOverflow,
{
    let mut out: Vec<PartnerInfo> = Vec::new();
    let mut i: usize = 0;
    while i < partners.len()
        invariant
            i <= partners@.len(),
            out@.len() == i,
            forall|k: int|
                0 <= k < i ==> partner_after(
                    partners@[k],
                    protocol_fee as int,
                    lp_supply as int,
                    zero_for_one,
                ) == Some(#[trigger] out@[k]),
        decreases partners@.len() - i,
    {
        match track_partner(&partners[i], protocol_fee, lp_supply, zero_for_one) {
            Some(q) => out.push(q),
            None => return Err(GammaError::ArithmeticOverflow),
        }
        i += 1;
    }
    assert forall|k: int| 0 <= k < partners@.len() implies partner_after(
        partners@[k],
        protocol_fee as int,
        lp_supply as int,
        zero_for_one,
    ) is Some by {
        assert(partner_after(partners@[k], protocol_fee as int, lp_supply as int, zero_for_one)
            == Some(out@[k]));
    }
    Ok(out)
}

} // verus!
