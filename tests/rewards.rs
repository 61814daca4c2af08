use gamma::error::GammaError;
use gamma::rewards::{calculate_reward_increment, calculate_rewards, CalculateRewards};
use gamma::state::{PoolState, Pubkey, RewardInfo, UserPoolLiquidity, UserRewardInfo, STATUS_ALL};

fn key(b: u8) -> Pubkey {
    Pubkey { bytes: [b; 32] }
}

fn pool(supply: u64) -> PoolState {
    PoolState {
        amm_config: key(9),
        pool_creator: key(8),
        token_0_mint: key(1),
        token_1_mint: key(2),
        token_0_vault: key(3),
        token_1_vault: key(4),
        observation_key: key(7),
        token_0_vault_amount: 1_000,
        token_1_vault_amount: 1_000,
        lp_supply: supply,
        protocol_fees_token_0: 0,
        protocol_fees_token_1: 0,
        fund_fees_token_0: 0,
        fund_fees_token_1: 0,
        cumulative_trade_fees_token_0: 0,
        cumulative_trade_fees_token_1: 0,
        cumulative_volume_token_0: 0,
        cumulative_volume_token_1: 0,
        partners: Vec::new(),
        status: STATUS_ALL,
        open_time: 10,
        max_trade_fee_rate: 10_000,
        volatility_factor: 0,
        latest_dynamic_fee_rate: 0,
        recent_epoch: 0,
    }
}

fn schedule() -> RewardInfo {
    RewardInfo { pool: key(30), mint: key(31), start_at: 100, end_at: 1_100, total_to_disburse: 1_000 }
}

fn ctx(now: u64) -> CalculateRewards {
    CalculateRewards {
        signer: key(40),
        admin: key(40),
        user: key(41),
        pool_state_key: key(42),
        pool_state: pool(1_000),
        reward_info_key: key(43),
        reward_info: schedule(),
        user_reward_info: UserRewardInfo {
            rewards_last_calculated_at: 0,
            total_rewards: 0,
            reward_info: key(0),
            user: key(0),
            pool_state: key(0),
        },
        user_pool_liquidity: UserPoolLiquidity {
            user: key(41),
            pool_state: key(42),
            token_0_deposited: 0,
            token_1_deposited: 0,
            token_0_withdrawn: 0,
            token_1_withdrawn: 0,
            lp_tokens_owned: 250,
            partner: None,
            first_investment_at: 600,
        },
        current_time: now,
    }
}

#[test]
fn first_accrual_starts_at_first_deposit() {
    let mut c = ctx(800);
    calculate_rewards(&mut c).unwrap();
    // 200 seconds at 1 per second, a quarter of the shares
    assert_eq!(c.user_reward_info.total_rewards, 50);
    assert_eq!(c.user_reward_info.rewards_last_calculated_at, 800);
    assert_eq!(c.user_reward_info.user.bytes, [41u8; 32]);
    assert_eq!(c.user_reward_info.reward_info.bytes, [43u8; 32]);
    assert_eq!(c.user_reward_info.pool_state.bytes, [42u8; 32]);
}

#[test]
fn second_accrual_at_same_time_is_noop() {
    let mut c = ctx(800);
    calculate_rewards(&mut c).unwrap();
    calculate_rewards(&mut c).unwrap();
    assert_eq!(c.user_reward_info.total_rewards, 50);
    assert_eq!(c.user_reward_info.rewards_last_calculated_at, 800);
}

#[test]
fn later_accruals_add_up_and_stop_at_schedule_end() {
    let mut c = ctx(800);
    calculate_rewards(&mut c).unwrap();
    c.current_time = 1_000;
    calculate_rewards(&mut c).unwrap();
    assert_eq!(c.user_reward_info.total_rewards, 100);
    c.current_time = 5_000;
    calculate_rewards(&mut c).unwrap();
    assert_eq!(c.user_reward_info.total_rewards, 125);
    assert_eq!(c.user_reward_info.rewards_last_calculated_at, 5_000);
}

#[test]
fn accrual_needs_the_operator() {
    let mut c = ctx(800);
    c.signer = key(1);
    assert_eq!(calculate_rewards(&mut c).unwrap_err(), GammaError::Unauthorized);
    assert_eq!(c.user_reward_info.total_rewards, 0);
    assert_eq!(c.user_reward_info.rewards_last_calculated_at, 0);
}

#[test]
fn reward_increment_edges() {
    let r = schedule();
    assert_eq!(calculate_reward_increment(&r, 0, 2_000, 1, 1), Some(1_000));
    assert_eq!(calculate_reward_increment(&r, 600, 800, 250, 0), Some(0));
    assert_eq!(calculate_reward_increment(&r, 900, 800, 250, 1_000), Some(0));
    assert_eq!(calculate_reward_increment(&r, 100, 1_100, u64::MAX, 1), None);
}
