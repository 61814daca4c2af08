use gamma::curve::{dynamic_fee_rate, swap_base_output as curve_swap};
use gamma::error::GammaError;
use gamma::fees::{track_partner_fees, ReferralInfo};
use gamma::state::{AmmConfig, PartnerInfo, PoolState, Pubkey, STATUS_ALL, STATUS_DEPOSIT};
use gamma::swap::{quote_swap_base_output, swap_base_output, Swap};

fn key(b: u8) -> Pubkey {
    Pubkey { bytes: [b; 32] }
}

fn pool(reserve_0: u64, reserve_1: u64, supply: u64) -> PoolState {
    PoolState {
        amm_config: key(9),
        pool_creator: key(8),
        token_0_mint: key(1),
        token_1_mint: key(2),
        token_0_vault: key(3),
        token_1_vault: key(4),
        observation_key: key(7),
        token_0_vault_amount: reserve_0,
        token_1_vault_amount: reserve_1,
        lp_supply: supply,
        protocol_fees_token_0: 0,
        protocol_fees_token_1: 0,
        fund_fees_token_0: 0,
        fund_fees_token_1: 0,
        cumulative_trade_fees_token_0: 0,
        cumulative_trade_fees_token_1: 0,
        cumulative_volume_token_0: 0,
        cumulative_volume_token_1: 0,
        partners: Vec::new(),
        status: STATUS_ALL,
        open_time: 10,
        max_trade_fee_rate: 10_000,
        volatility_factor: 0,
        latest_dynamic_fee_rate: 0,
        recent_epoch: 0,
    }
}

fn config() -> AmmConfig {
    AmmConfig {
        trade_fee_rate: 2500,
        protocol_fee_rate: 120_000,
        fund_fee_rate: 40_000,
        disable_create_pool: false,
        create_pool_fee: 0,
        max_open_time: 1000,
    }
}

fn swap_ctx(p: PoolState, zero_for_one: bool) -> Swap {
    let (input_vault, output_vault) = if zero_for_one { (key(3), key(4)) } else { (key(4), key(3)) };
    Swap {
        amm_config: config(),
        pool_state: p,
        input_vault,
        output_vault,
        block_timestamp: 100,
        epoch: 42,
        volatility: 0,
        invoked_by_privileged_router: false,
        referral: None,
        input_transfer_fee: 0,
        output_transfer_fee: 0,
        referral_transfer_fee: 0,
    }
}

#[test]
fn swap_output_fixed_solves_input_exactly() {
    let mut ctx = swap_ctx(pool(1_000_000, 2_000_000, 1_000_000), true);
    ctx.output_transfer_fee = 5;
    ctx.input_transfer_fee = 3;
    let out = swap_base_output(&mut ctx, 257, 500).unwrap();
    // 505 leaves the pool; ceil(1_000_000 * 505 / 1_999_495) = 253, fee ceil(253 * 2500 / 997_500) = 1
    assert_eq!(out.output_transfer_amount, 505);
    assert_eq!(out.source_amount_swapped, 254);
    assert_eq!(out.dynamic_fee, 1);
    assert_eq!(out.input_transfer_amount, 257);
    assert_eq!(out.referral_amount, None);
    assert!(out.zero_for_one);
    assert_eq!(ctx.pool_state.token_0_vault_amount, 1_000_254);
    assert_eq!(ctx.pool_state.token_1_vault_amount, 1_999_495);
    assert_eq!(ctx.pool_state.cumulative_volume_token_0, 257);
    assert_eq!(ctx.pool_state.cumulative_volume_token_1, 505);
    assert_eq!(ctx.pool_state.latest_dynamic_fee_rate, 2500);
    assert_eq!(ctx.pool_state.recent_epoch, 42);
    assert_eq!(out.token_0_price_x32, 8_589_934_592);
    assert_eq!(out.token_1_price_x32, 2_147_483_648);
}

#[test]
fn swap_exact_output_without_overhead() {
    let mut ctx = swap_ctx(pool(1_000_000, 2_000_000, 1_000_000), true);
    let out = swap_base_output(&mut ctx, u64::MAX, 500).unwrap();
    assert_eq!(out.source_amount_swapped, 252);
    assert_eq!(out.output_transfer_amount, 500);
}

#[test]
fn swap_keeps_constant_product() {
    let mut ctx = swap_ctx(pool(1_000_000, 2_000_000, 1_000_000), true);
    let out = swap_base_output(&mut ctx, u64::MAX, 100_000).unwrap();
    let before = 1_000_000u128 * 2_000_000u128;
    let after_in = 1_000_000u128 + out.source_amount_swapped as u128 - out.dynamic_fee as u128;
    let after_out = 2_000_000u128 - 100_000;
    assert!(after_in * after_out >= before);
    let ledger = ctx.pool_state.token_0_vault_amount as u128
        * ctx.pool_state.token_1_vault_amount as u128;
    assert!(ledger >= before);
}

#[test]
fn swap_splits_fee_and_pays_referral() {
    let mut p = pool(1_000_000, 2_000_000, 1_000);
    p.partners.push(PartnerInfo {
        partner_id: 77,
        lp_token_linked_with_partner: 250,
        cumulative_fee_total_times_tvl_share_token_0: 0,
        cumulative_fee_total_times_tvl_share_token_1: 0,
    });
    let mut ctx = swap_ctx(p, true);
    ctx.referral = Some(ReferralInfo { share: 5000 });
    let out = swap_base_output(&mut ctx, u64::MAX, 100_000).unwrap();
    // net 52_632, fee 132, protocol 15, fund 5; the referrer takes 7 + 2
    assert_eq!(out.source_amount_swapped, 52_764);
    assert_eq!(out.dynamic_fee, 132);
    assert_eq!(out.referral_amount, Some(9));
    assert_eq!(out.input_transfer_amount, 52_755);
    let p = &ctx.pool_state;
    assert_eq!(p.protocol_fees_token_0, 8);
    assert_eq!(p.fund_fees_token_0, 3);
    assert_eq!(p.cumulative_trade_fees_token_0, 132);
    assert_eq!(p.token_0_vault_amount, 1_052_744);
    assert_eq!(p.token_1_vault_amount, 1_900_000);
    assert_eq!(p.partners[0].cumulative_fee_total_times_tvl_share_token_0, 2);
    assert_eq!(p.partners[0].cumulative_fee_total_times_tvl_share_token_1, 0);
}

#[test]
fn swap_skips_referral_eaten_by_overhead() {
    let mut ctx = swap_ctx(pool(1_000_000, 2_000_000, 1_000), true);
    ctx.referral = Some(ReferralInfo { share: 5000 });
    ctx.referral_transfer_fee = 9;
    let out = swap_base_output(&mut ctx, u64::MAX, 100_000).unwrap();
    assert_eq!(out.referral_amount, None);
    assert_eq!(out.input_transfer_amount, 52_764);
    assert_eq!(ctx.pool_state.protocol_fees_token_0, 15);
    assert_eq!(ctx.pool_state.fund_fees_token_0, 5);
    assert_eq!(ctx.pool_state.token_0_vault_amount, 1_052_744);
}

#[test]
fn swap_one_for_zero() {
    let mut ctx = swap_ctx(pool(1_000_000, 2_000_000, 1_000_000), false);
    let out = swap_base_output(&mut ctx, u64::MAX, 500).unwrap();
    // ceil(2_000_000 * 500 / 999_500) = 1001, fee ceil(1001 * 2500 / 997_500) = 3
    assert!(!out.zero_for_one);
    assert_eq!(out.source_amount_swapped, 1004);
    assert_eq!(ctx.pool_state.token_0_vault_amount, 999_500);
    assert_eq!(ctx.pool_state.token_1_vault_amount, 2_001_004);
    assert_eq!(ctx.pool_state.cumulative_trade_fees_token_1, 3);
    assert_eq!(ctx.pool_state.cumulative_volume_token_1, 1004);
    assert_eq!(ctx.pool_state.cumulative_volume_token_0, 500);
}

#[test]
fn swap_slippage_leaves_pool_unchanged() {
    let mut ctx = swap_ctx(pool(1_000_000, 2_000_000, 1_000_000), true);
    ctx.output_transfer_fee = 5;
    ctx.input_transfer_fee = 3;
    assert_eq!(swap_base_output(&mut ctx, 256, 500).unwrap_err(), GammaError::SlippageExceeded);
    assert_eq!(ctx.pool_state.token_0_vault_amount, 1_000_000);
    assert_eq!(ctx.pool_state.token_1_vault_amount, 2_000_000);
    assert_eq!(ctx.pool_state.recent_epoch, 0);
}

#[test]
fn swap_rejects_foreign_vault() {
    let mut ctx = swap_ctx(pool(1_000_000, 2_000_000, 1_000_000), true);
    ctx.output_vault = key(5);
    assert_eq!(swap_base_output(&mut ctx, u64::MAX, 500).unwrap_err(), GammaError::InvalidAssetForPool);
}

#[test]
fn swap_rejects_disabled_or_early() {
    let mut p = pool(1_000_000, 2_000_000, 1_000_000);
    p.status = STATUS_DEPOSIT;
    let mut ctx = swap_ctx(p, true);
    assert_eq!(swap_base_output(&mut ctx, u64::MAX, 500).unwrap_err(), GammaError::OperationDisabled);
    let mut ctx = swap_ctx(pool(1_000_000, 2_000_000, 1_000_000), true);
    ctx.block_timestamp = 9;
    assert_eq!(swap_base_output(&mut ctx, u64::MAX, 500).unwrap_err(), GammaError::OperationDisabled);
}

#[test]
fn swap_rejects_degenerate_amounts() {
    let mut ctx = swap_ctx(pool(1_000_000, 2_000_000, 1_000_000), true);
    assert_eq!(swap_base_output(&mut ctx, u64::MAX, 0).unwrap_err(), GammaError::ZeroTradeAmount);
    assert_eq!(swap_base_output(&mut ctx, u64::MAX, 2_000_000).unwrap_err(), GammaError::ZeroTradeAmount);
    ctx.output_transfer_fee = u64::MAX;
    assert_eq!(swap_base_output(&mut ctx, u64::MAX, 1).unwrap_err(), GammaError::ArithmeticOverflow);
}

#[test]
fn curve_rejects_draining_output() {
    assert_eq!(curve_swap(10, 5, 10, 2500, 0, 0).unwrap_err(), GammaError::ZeroTradeAmount);
    assert_eq!(curve_swap(1, 0, 10, 2500, 0, 0).unwrap_err(), GammaError::ZeroTradeAmount);
    let r = curve_swap(1, 5, 10, 0, 0, 0).unwrap();
    // ceil(5 * 1 / 9) = 1
    assert_eq!(r.source_amount_swapped, 1);
    assert_eq!(r.new_swap_source_amount, 6);
    assert_eq!(r.new_swap_destination_amount, 9);
}

#[test]
fn dynamic_fee_rate_is_capped() {
    assert_eq!(dynamic_fee_rate(2500, 500_000, 10_000, 10_000, false), 7500);
    assert_eq!(dynamic_fee_rate(2500, 500_000, 10_000, 5000, false), 5000);
    assert_eq!(dynamic_fee_rate(2500, 500_000, 10_000, 5000, true), 2500);
}

#[test]
fn swap_uses_volatility_surcharge() {
    let mut p = pool(1_000_000, 2_000_000, 1_000_000);
    p.volatility_factor = 500_000;
    let mut ctx = swap_ctx(p, true);
    ctx.volatility = 10_000;
    let out = swap_base_output(&mut ctx, u64::MAX, 100_000).unwrap();
    assert_eq!(out.dynamic_fee_rate, 7500);
    // ceil(52_632 * 7500 / 992_500) = 398
    assert_eq!(out.dynamic_fee, 398);
    assert_eq!(ctx.pool_state.latest_dynamic_fee_rate, 7500);
}

#[test]
fn partner_fees_are_pro_rata() {
    let partners = vec![
        PartnerInfo {
            partner_id: 1,
            lp_token_linked_with_partner: 250,
            cumulative_fee_total_times_tvl_share_token_0: 10,
            cumulative_fee_total_times_tvl_share_token_1: 20,
        },
        PartnerInfo {
            partner_id: 2,
            lp_token_linked_with_partner: 500,
            cumulative_fee_total_times_tvl_share_token_0: 0,
            cumulative_fee_total_times_tvl_share_token_1: 0,
        },
    ];
    let v = track_partner_fees(&partners, 1000, 1000, false).unwrap();
    assert_eq!(v[0].cumulative_fee_total_times_tvl_share_token_1, 270);
    assert_eq!(v[0].cumulative_fee_total_times_tvl_share_token_0, 10);
    assert_eq!(v[1].cumulative_fee_total_times_tvl_share_token_1, 500);
    assert_eq!(track_partner_fees(&partners, 1000, 0, true).unwrap_err(), GammaError::ArithmeticOverflow);
}

#[test]
fn quote_prices_without_changing_pool() {
    let mut ctx = swap_ctx(pool(1_000_000, 2_000_000, 1_000_000), false);
    ctx.output_transfer_fee = 5;
    let q = quote_swap_base_output(&ctx, 500).unwrap();
    assert!(!q.zero_for_one);
    assert_eq!((q.reserve_in, q.reserve_out), (2_000_000, 1_000_000));
    assert_eq!(q.actual_amount_out, 505);
    // ceil(2_000_000 * 505 / 999_495) = 1011, fee ceil(1011 * 2500 / 997_500) = 3
    assert_eq!(q.result.source_amount_swapped, 1014);
    assert_eq!(q.result.dynamic_fee, 3);
    assert_eq!(ctx.pool_state.token_1_vault_amount, 2_000_000);
    ctx.input_vault = key(3);
    assert_eq!(quote_swap_base_output(&ctx, 500).unwrap_err(), GammaError::InvalidAssetForPool);
}

#[test]
fn quote_reports_referral_rebate() {
    let mut ctx = swap_ctx(pool(1_000_000, 2_000_000, 1_000), true);
    let q = quote_swap_base_output(&ctx, 100_000).unwrap();
    assert_eq!(q.referral_amount, 0);
    ctx.referral = Some(ReferralInfo { share: 5000 });
    let q = quote_swap_base_output(&ctx, 100_000).unwrap();
    // half of the protocol fee 15 and of the fund fee 5, each rounded down
    assert_eq!(q.referral_amount, 9);
}
