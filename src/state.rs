use vstd::prelude::*;

verus! {

/// Scale of fee rates: a rate of `FEE_RATE_DENOMINATOR` is 100%.
pub const FEE_RATE_DENOMINATOR: u64 = 1_000_000;

/// Fixed-point scale (five decimal digits) of a partner's share of the pool.
pub const FEE_SHARE_SCALE: u64 = 100_000;

/// Shares withheld for ever from the creator of a pool, so that no full
/// withdrawal can drain its reserves to zero.
pub const LOCK_LP_AMOUNT: u64 = 100;

/// Scale of the referral rebate: a share of `REFERRAL_SHARE_DENOMINATOR` is 100%.
pub const REFERRAL_SHARE_DENOMINATOR: u64 = 10_000;

/// Status bit of deposits.
pub const STATUS_DEPOSIT: u8 = 1;

/// Status bit of withdrawals.
pub const STATUS_WITHDRAW: u8 = 2;

/// Status bit of swaps.
pub const STATUS_SWAP: u8 = 4;

/// All three operations enabled.
pub const STATUS_ALL: u8 = 7;

/// A 32-byte account address.
#[derive(Clone, Copy, Debug)]
pub struct Pubkey {
    pub bytes: [u8; 32],
}

/// How two addresses compare, byte by byte from the first.
#[derive(Clone, Copy, Debug, PartialEq, Eq, Structural)]
pub enum KeyOrder {
    Less,
    Equal,
    Greater,
}

/// `a` comes strictly before `b` in byte-lexicographic order.
pub open spec fn key_less(a: Seq<u8>, b: Seq<u8>) -> bool {
    exists|i: int|
        0 <= i < 32 && a[i] < b[i] && forall|j: int| 0 <= j < i ==> a[j] == b[j]
}

/// The order of two addresses of 32 bytes.
pub open spec fn key_order(a: Seq<u8>, b: Seq<u8>) -> KeyOrder {
    if a == b {
        KeyOrder::Equal
    } else if key_less(a, b) {
        KeyOrder::Less
    } else {
        KeyOrder::Greater
    }
}

impl Pubkey {
    pub open spec fn view(&self) -> Seq<u8> {
        self.bytes@
    }

    /// Compares two addresses byte by byte.
    pub fn compare(&self, other: &Pubkey) -> (r: KeyOrder)
        ensures
            r == key_order(self@, other@),
    {
        let mut i: usize = 0;
        while i < 32
            invariant
                0 <= i <= 32,
                self@.len() == 32,
                other@.len() == 32,
                forall|j: int| 0 <= j < i ==> self@[j] == other@[j],
            decreases 32 - i,
        {
            let a = self.bytes[i];
            let b = other.bytes[i];
            if a != b {
                assert(self@ != other@) by {
                    assert(self@[i as int] != other@[i as int]);
                }
                if a < b {
                    assert(key_less(self@, other@));
                    return KeyOrder::Less;
                } else {
                    assert(!key_less(self@, other@)) by {
                        if key_less(self@, other@) {
                            let k = choose|k: int|
                                0 <= k < 32 && self@[k] < other@[k] && forall|j: int|
                                    0 <= j < k ==> self@[j] == other@[j];
                            if k < i {
                            } else if k > i {
                                assert(self@[i as int] == other@[i as int]);
                            }
                        }
                    }
                    return KeyOrder::Greater;
                }
            }
            i += 1;
        }
        assert(self@ =~= other@);
        KeyOrder::Equal
    }

    /// The two addresses are the same.
    pub fn same(&self, other: &Pubkey) -> (r: bool)
        ensures
            r == (self@ == other@),
    {
        self.compare(other) == KeyOrder::Equal
    }
}

/// Fee-attribution record of one partner inside a pool. Pure accounting: it
/// never moves funds.
#[derive(Clone, Copy, Debug)]
pub struct PartnerInfo {
    pub partner_id: u64,
    /// Shares held by participants affiliated with this partner.
    pub lp_token_linked_with_partner: u64,
    pub cumulative_fee_total_times_tvl_share_token_0: u64,
    pub cumulative_fee_total_times_tvl_share_token_1: u64,
}

/// Fee configuration shared by the pools of one program configuration.
#[derive(Clone, Copy, Debug)]
pub struct AmmConfig {
    /// Base trade fee rate, over `FEE_RATE_DENOMINATOR`.
    pub trade_fee_rate: u64,
    /// Part of the trade fee that goes to the protocol, over `FEE_RATE_DENOMINATOR`.
    pub protocol_fee_rate: u64,
    /// Part of the trade fee that goes to the fund, over `FEE_RATE_DENOMINATOR`.
    pub fund_fee_rate: u64,
    /// Pool creation is switched off.
    pub disable_create_pool: bool,
    /// Charge, in native units, for creating a pool; zero for none.
    pub create_pool_fee: u64,
    /// How far ahead of now a pool's activation time may be set, in seconds.
    pub max_open_time: u64,
}

impl AmmConfig {
    /// The protocol and fund parts of a fee never exceed the fee.
    pub open spec fn wf(&self) -> bool {
        self.protocol_fee_rate + self.fund_fee_rate <= FEE_RATE_DENOMINATOR
    }
}

/// The shared record of one pool.
#[derive(Clone, Debug)]
pub struct PoolState {
    pub amm_config: Pubkey,
    pub pool_creator: Pubkey,
    pub token_0_mint: Pubkey,
    pub token_1_mint: Pubkey,
    pub token_0_vault: Pubkey,
    pub token_1_vault: Pubkey,
    pub observation_key: Pubkey,
    /// Reserve of asset 0 available to trading.
    pub token_0_vault_amount: u64,
    /// Reserve of asset 1 available to trading.
    pub token_1_vault_amount: u64,
    /// Outstanding shares.
    pub lp_supply: u64,
    pub protocol_fees_token_0: u64,
    pub protocol_fees_token_1: u64,
    pub fund_fees_token_0: u64,
    pub fund_fees_token_1: u64,
    pub cumulative_trade_fees_token_0: u128,
    pub cumulative_trade_fees_token_1: u128,
    pub cumulative_volume_token_0: u128,
    pub cumulative_volume_token_1: u128,
    pub partners: Vec<PartnerInfo>,
    /// Bitmask of enabled operations (`STATUS_DEPOSIT`, `STATUS_WITHDRAW`, `STATUS_SWAP`).
    pub status: u8,
    /// Time from which swaps are accepted.
    pub open_time: u64,
    /// Upper bound of the dynamic fee rate, over `FEE_RATE_DENOMINATOR`.
    pub max_trade_fee_rate: u64,
    /// Weight of the oracle's volatility in the dynamic fee rate.
    pub volatility_factor: u64,
    /// Fee rate applied by the latest swap.
    pub latest_dynamic_fee_rate: u64,
    /// Generation marker: the host epoch of the latest mutating operation.
    pub recent_epoch: u64,
}

/// Whether the operation of bit `bit` is enabled in `status`.
pub open spec fn status_enabled(status: u8, bit: u8) -> bool {
    status & bit != 0
}

impl PoolState {
    /// The dynamic fee rate can never reach 100%.
    pub open spec fn wf(&self) -> bool {
        self.max_trade_fee_rate < FEE_RATE_DENOMINATOR
    }

    /// Whether the operation of bit `bit` is enabled.
    pub fn get_status_by_bit(&self, bit: u8) -> (r: bool)
        ensures
            r == status_enabled(self.status, bit),
    {
        self.status & bit != 0
    }
}

/// What a participant holds in, and has moved through, one pool.
#[derive(Clone, Copy, Debug)]
pub struct UserPoolLiquidity {
    pub user: Pubkey,
    pub pool_state: Pubkey,
    pub token_0_deposited: u128,
    pub token_1_deposited: u128,
    pub token_0_withdrawn: u128,
    pub token_1_withdrawn: u128,
    pub lp_tokens_owned: u128,
    /// The partner this participant is affiliated with, if any.
    pub partner: Option<u64>,
    pub first_investment_at: u64,
}

impl UserPoolLiquidity {
    /// Resets the record for a first deposit at `current_time`.
    pub fn initialize(
        &mut self,
        user: Pubkey,
        pool_state: Pubkey,
        partner: Option<u64>,
        current_time: u64,
    )
        ensures
            final(self).user@ == user@,
            final(self).pool_state@ == pool_state@,
            final(self).token_0_deposited == 0,
            final(self).token_1_deposited == 0,
            final(self).token_0_withdrawn == 0,
            final(self).token_1_withdrawn == 0,
            final(self).lp_tokens_owned == 0,
            final(self).partner == partner,
            final(self).first_investment_at == current_time,
    {
        self.user = user;
        self.pool_state = pool_state;
        self.token_0_deposited = 0;
        self.token_1_deposited = 0;
        self.token_0_withdrawn = 0;
        self.token_1_withdrawn = 0;
        self.lp_tokens_owned = 0;
        self.partner = partner;
        self.first_investment_at = current_time;
    }
}

/// A reward schedule of one pool: `total_to_disburse` units of `mint`
/// released evenly from `start_at` to `end_at`.
#[derive(Clone, Copy, Debug)]
pub struct RewardInfo {
    pub pool: Pubkey,
    pub mint: Pubkey,
    pub start_at: u64,
    pub end_at: u64,
    pub total_to_disburse: u64,
}

/// What one participant has accrued under one reward schedule.
#[derive(Clone, Copy, Debug)]
pub struct UserRewardInfo {
    /// Time up to which rewards are accounted; zero before the first accrual.
    pub rewards_last_calculated_at: u64,
    /// Accrued claimable amount.
    pub total_rewards: u64,
    pub reward_info: Pubkey,
    pub user: Pubkey,
    pub pool_state: Pubkey,
}

} // verus!
