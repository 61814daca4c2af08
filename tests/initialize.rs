use gamma::error::GammaError;
use gamma::initialize::{initialize, Initialize};
use gamma::math::{integer_sqrt, mul_div};
use gamma::state::{AmmConfig, KeyOrder, Pubkey, UserPoolLiquidity, LOCK_LP_AMOUNT, STATUS_ALL};

fn key(b: u8) -> Pubkey {
    Pubkey { bytes: [b; 32] }
}

/// Data of an initialized token account without extensions holding `amount`.
fn vault_data(amount: u64) -> Vec<u8> {
    let mut d = vec![0u8; 165];
    d[64..72].copy_from_slice(&amount.to_le_bytes());
    d[108] = 1;
    d
}

fn ctx(mint_0: Pubkey, mint_1: Pubkey) -> Initialize {
    Initialize {
        creator: key(20),
        amm_config: AmmConfig {
            trade_fee_rate: 2500,
            protocol_fee_rate: 120_000,
            fund_fee_rate: 40_000,
            disable_create_pool: false,
            create_pool_fee: 0,
            max_open_time: 1000,
        },
        amm_config_key: key(21),
        pool_state_key: key(22),
        token_0_mint: mint_0,
        token_1_mint: mint_1,
        token_0_mint_supported: true,
        token_1_mint_supported: true,
        token_0_vault: key(23),
        token_1_vault: key(24),
        observation_key: key(25),
        block_timestamp: 500,
        epoch: 2,
        token_0_vault_data: vault_data(1_000_000),
        token_1_vault_data: vault_data(2_000_000),
    }
}

#[test]
fn initialize_sets_sqrt_supply_and_locks_shares() {
    let c = ctx(key(1), key(2));
    let (pool, user) = initialize(&c, 1_000_000, 2_000_000, 0, 10_000, 7).unwrap();
    assert_eq!(pool.lp_supply, 1_414_213);
    assert_eq!(user.lp_tokens_owned, 1_414_213 - LOCK_LP_AMOUNT as u128);
    assert_eq!(pool.token_0_vault_amount, 1_000_000);
    assert_eq!(pool.token_1_vault_amount, 2_000_000);
    assert_eq!(pool.open_time, 501);
    assert_eq!(pool.status, STATUS_ALL);
    assert_eq!(pool.max_trade_fee_rate, 10_000);
    assert_eq!(pool.volatility_factor, 7);
    assert_eq!(pool.recent_epoch, 2);
    assert_eq!(user.token_0_deposited, 1_000_000);
    assert_eq!(user.first_investment_at, 500);
    assert!(user.partner.is_none());
}

#[test]
fn initialize_keeps_future_open_time() {
    let c = ctx(key(1), key(2));
    let (pool, _) = initialize(&c, 1, 1, 1_500, 10_000, 0).unwrap();
    assert_eq!(pool.open_time, 1_500);
    assert_eq!(initialize(&c, 1, 1, 1_501, 10_000, 0).unwrap_err(), GammaError::InvalidActivationTime);
}

#[test]
fn initialize_rejects_unsorted_pair() {
    let c = ctx(key(2), key(1));
    assert_eq!(initialize(&c, 1, 1, 0, 10_000, 0).unwrap_err(), GammaError::InvalidAssetForPool);
    let c = ctx(key(2), key(2));
    assert_eq!(initialize(&c, 1, 1, 0, 10_000, 0).unwrap_err(), GammaError::InvalidAssetForPool);
    let mut a = [0u8; 32];
    let mut b = [0u8; 32];
    a[31] = 2;
    b[30] = 1;
    assert_eq!(Pubkey { bytes: a }.compare(&Pubkey { bytes: b }), KeyOrder::Less);
    let c = ctx(Pubkey { bytes: b }, Pubkey { bytes: a });
    assert_eq!(initialize(&c, 1, 1, 0, 10_000, 0).unwrap_err(), GammaError::InvalidAssetForPool);
}

#[test]
fn initialize_rejects_bad_inputs() {
    let mut c = ctx(key(1), key(2));
    c.token_1_mint_supported = false;
    assert_eq!(initialize(&c, 1, 1, 0, 10_000, 0).unwrap_err(), GammaError::UnsupportedAssetKind);
    let mut c = ctx(key(1), key(2));
    c.amm_config.disable_create_pool = true;
    assert_eq!(initialize(&c, 1, 1, 0, 10_000, 0).unwrap_err(), GammaError::OperationDisabled);
    let c = ctx(key(1), key(2));
    assert_eq!(initialize(&c, 1, 1, 0, 1_000_000, 0).unwrap_err(), GammaError::InvalidFeeRate);
    let mut c = ctx(key(1), key(2));
    c.token_0_vault_data = vault_data(0);
    assert_eq!(initialize(&c, 1, 1, 0, 10_000, 0).unwrap_err(), GammaError::ZeroTradeAmount);
    let mut c = ctx(key(1), key(2));
    c.token_0_vault_data = vault_data(99);
    c.token_1_vault_data = vault_data(100);
    assert_eq!(initialize(&c, 1, 1, 0, 10_000, 0).unwrap_err(), GammaError::ArithmeticUnderflow);
    c.token_0_vault_data = vault_data(100);
    let (pool, user) = initialize(&c, 1, 1, 0, 10_000, 0).unwrap();
    assert_eq!(pool.lp_supply, 100);
    assert_eq!(user.lp_tokens_owned, 0);
}

#[test]
fn user_record_initialize_resets() {
    let mut u = UserPoolLiquidity {
        user: key(1),
        pool_state: key(2),
        token_0_deposited: 5,
        token_1_deposited: 6,
        token_0_withdrawn: 7,
        token_1_withdrawn: 8,
        lp_tokens_owned: 9,
        partner: None,
        first_investment_at: 1,
    };
    u.initialize(key(3), key(4), Some(12), 77);
    assert_eq!(u.user.bytes, [3u8; 32]);
    assert_eq!(u.pool_state.bytes, [4u8; 32]);
    assert_eq!(u.token_0_deposited, 0);
    assert_eq!(u.token_1_withdrawn, 0);
    assert_eq!(u.lp_tokens_owned, 0);
    assert_eq!(u.partner, Some(12));
    assert_eq!(u.first_investment_at, 77);
}

#[test]
fn integer_sqrt_exact() {
    assert_eq!(integer_sqrt(0), 0);
    assert_eq!(integer_sqrt(1), 1);
    assert_eq!(integer_sqrt(15), 3);
    assert_eq!(integer_sqrt(16), 4);
    assert_eq!(integer_sqrt(2_000_000_000_000), 1_414_213);
    assert_eq!(integer_sqrt(u128::MAX), u64::MAX);
}

#[test]
fn mul_div_rounds_both_ways() {
    assert_eq!(mul_div(10, 3, 4, false), 7);
    assert_eq!(mul_div(10, 3, 4, true), 8);
    assert_eq!(mul_div(10, 4, 4, true), 10);
}

#[test]
fn initialize_reads_vault_balances_from_account_data() {
    let mut c = ctx(key(1), key(2));
    c.token_0_vault_data = vault_data(40_000);
    c.token_1_vault_data = vault_data(90_000);
    let (pool, _) = initialize(&c, 1, 1, 0, 10_000, 0).unwrap();
    assert_eq!(pool.token_0_vault_amount, 40_000);
    assert_eq!(pool.token_1_vault_amount, 90_000);
    assert_eq!(pool.lp_supply, 60_000);
}

#[test]
fn initialize_rejects_undecodable_vault_data() {
    let mut c = ctx(key(1), key(2));
    c.token_1_vault_data[108] = 0;
    assert_eq!(initialize(&c, 1, 1, 0, 10_000, 0).unwrap_err(), GammaError::InvalidAssetForPool);
    let mut c = ctx(key(1), key(2));
    c.token_0_vault_data.truncate(100);
    assert_eq!(initialize(&c, 1, 1, 0, 10_000, 0).unwrap_err(), GammaError::InvalidAssetForPool);
}

#[test]
fn initialize_checks_activation_before_fee_cap() {
    let c = ctx(key(1), key(2));
    assert_eq!(initialize(&c, 1, 1, 1_501, 1_000_000, 0).unwrap_err(), GammaError::InvalidActivationTime);
    let mut c = ctx(key(1), key(2));
    c.block_timestamp = u64::MAX;
    c.amm_config.max_open_time = 0;
    assert_eq!(initialize(&c, 1, 1, 0, 10_000, 0).unwrap_err(), GammaError::InvalidActivationTime);
    c.amm_config.max_open_time = 1;
    assert_eq!(initialize(&c, 1, 1, 0, 10_000, 0).unwrap_err(), GammaError::ArithmeticOverflow);
}

#[test]
fn vault_data_decoding_follows_token_layout() {
    let ok = |d: Vec<u8>| {
        let mut c = ctx(key(1), key(2));
        c.token_0_vault_data = d;
        initialize(&c, 1, 1, 0, 10_000, 0).is_ok()
    };
    let mut frozen = vault_data(1_000_000);
    frozen[108] = 2;
    assert!(ok(frozen));
    let mut bad_state = vault_data(1_000_000);
    bad_state[108] = 3;
    assert!(!ok(bad_state));
    let mut bad_tag = vault_data(1_000_000);
    bad_tag[109] = 2;
    assert!(!ok(bad_tag));
    let mut some_delegate = vault_data(1_000_000);
    some_delegate[72] = 1;
    assert!(ok(some_delegate));
    let mut extended = vault_data(1_000_000);
    extended.push(2);
    assert!(ok(extended.clone()));
    extended[165] = 1;
    assert!(!ok(extended));
    let mut multisig_len = vault_data(1_000_000);
    multisig_len.resize(355, 0);
    multisig_len[165] = 2;
    assert!(!ok(multisig_len));
}
