use vstd::prelude::*;
use crate::error::GammaError;
use crate::math::{integer_sqrt, is_isqrt};
use crate::token::{balance_offset, le_u64, token_account_decodes, unpack_token_account_amount};
use crate::state::{
    key_order, AmmConfig, KeyOrder, PoolState, Pubkey, UserPoolLiquidity, FEE_RATE_DENOMINATOR,
    LOCK_LP_AMOUNT, STATUS_ALL,
};

verus! {

/// Everything the creation of a pool reads: the creator, the configuration,
/// the two assets and their vaults, and what the host reports (the time,
/// the epoch, whether each asset is of a supported kind, and the data of the
/// vault token accounts after the creator's initial transfers).
#[derive(Clone, Debug)]
pub struct Initialize {
    pub creator: Pubkey,
    pub amm_config: AmmConfig,
    pub amm_config_key: Pubkey,
    pub pool_state_key: Pubkey,
    pub token_0_mint: Pubkey,
    pub token_1_mint: Pubkey,
    pub token_0_mint_supported: bool,
    pub token_1_mint_supported: bool,
    pub token_0_vault: Pubkey,
    pub token_1_vault: Pubkey,
    pub observation_key: Pubkey,
    pub block_timestamp: u64,
    pub epoch: u64,
    pub token_0_vault_data: Vec<u8>,
    pub token_1_vault_data: Vec<u8>,
}

/// Balance held in token-account data that decodes.
pub open spec fn vault_balance(data: Seq<u8>) -> int {
    le_u64(data.subrange(balance_offset(), balance_offset() + 8))
}

/// The activation time actually used: at least one second after now.
pub open spec fn effective_open_time(now: int, requested: int) -> int {
    if requested <= now {
        now + 1
    } else {
        requested
    }
}

/// Why a pool cannot be created, checked in this order; `None` when it can.
pub open spec fn initialize_error(ctx: Initialize, open_time: u64, max_trade_fee_rate: u64) -> Option<
    GammaError,
> {
    let now = ctx.block_timestamp as int;
    if key_order(ctx.token_0_mint@, ctx.token_1_mint@) != KeyOrder::Less {
        Some(GammaError::InvalidAssetForPool)
    } else if !ctx.token_0_mint_supported || !ctx.token_1_mint_supported {
        Some(GammaError::UnsupportedAssetKind)
    } else if ctx.amm_config.disable_create_pool {
        Some(GammaError::OperationDisabled)
    } else if effective_open_time(now, open_time as int) > now + ctx.amm_config.max_open_time {
        Some(GammaError::InvalidActivationTime)
    } else if effective_open_time(now, open_time as int) > u64::MAX {
        Some(GammaError::ArithmeticOverflow)
    } else if max_trade_fee_rate >= FEE_RATE_DENOMINATOR {
        Some(GammaError::InvalidFeeRate)
    } else if !token_account_decodes(ctx.token_0_vault_data@) || !token_account_decodes(
        ctx.token_1_vault_data@,
    ) {
        Some(GammaError::InvalidAssetForPool)
    } else if vault_balance(ctx.token_0_vault_data@) == 0 || vault_balance(ctx.token_1_vault_data@)
        == 0 {
        Some(GammaError::ZeroTradeAmount)
    } else if vault_balance(ctx.token_0_vault_data@) * vault_balance(ctx.token_1_vault_data@)
        < LOCK_LP_AMOUNT * LOCK_LP_AMOUNT {
        Some(GammaError::ArithmeticUnderflow)
    } else {
        None
    }
}

/// Creates a pool and its creator's liquidity record. The assets must be in
/// canonical (strictly increasing) order, so that one unordered pair has one
/// pool. The initial share supply is the integer square root of the product
/// of the vault balances, read from the vault accounts' data;
/// `LOCK_LP_AMOUNT` of it is withheld from the creator for ever. Every
/// operation starts enabled.
pub fn initialize(
    ctx: &Initialize,
    init_amount_0: u64,
    init_amount_1: u64,
    open_time: u64,
    max_trade_fee_rate: u64,
    volatility_factor: u64,
) -> (r: Result<(PoolState, UserPoolLiquidity), GammaError>)
    ensures
        match r {
            Ok((pool, user)) => {
                let v0 = vault_balance(ctx.token_0_vault_data@);
                let v1 = vault_balance(ctx.token_1_vault_data@);
                &&& initialize_error(*ctx, open_time, max_trade_fee_rate) is None
                &&& is_isqrt(v0 * v1, pool.lp_supply as int)
                &&& pool.token_0_vault_amount == v0
                &&& pool.token_1_vault_amount == v1
                &&& pool.token_0_mint@ == ctx.token_0_mint@
                &&& pool.token_1_mint@ == ctx.token_1_mint@
                &&& pool.token_0_vault@ == ctx.token_0_vault@
                &&& pool.token_1_vault@ == ctx.token_1_vault@
                &&& pool.amm_config@ == ctx.amm_config_key@
                &&& pool.pool_creator@ == ctx.creator@
                &&& pool.observation_key@ == ctx.observation_key@
                &&& pool.open_time == effective_open_time(
                    ctx.block_timestamp as int,
                    open_time as int,
                )
                &&& pool.max_trade_fee_rate == max_trade_fee_rate
                &&& pool.volatility_factor == volatility_factor
                &&& pool.status == STATUS_ALL
                &&& pool.partners@.len() == 0
                &&& pool.protocol_fees_token_0 == 0 && pool.protocol_fees_token_1 == 0
                &&& pool.fund_fees_token_0 == 0 && pool.fund_fees_token_1 == 0
                &&& pool.cumulative_trade_fees_token_0 == 0
                &&& pool.cumulative_trade_fees_token_1 == 0
                &&& pool.cumulative_volume_token_0 == 0 && pool.cumulative_volume_token_1 == 0
                &&& pool.latest_dynamic_fee_rate == 0
                &&& pool.recent_epoch == ctx.epoch
                &&& pool.wf()
                &&& user.user@ == ctx.creator@
                &&& user.pool_state@ == ctx.pool_state_key@
                &&& user.token_0_deposited == init_amount_0
                &&& user.token_1_deposited == init_amount_1
                &&& user.token_0_withdrawn == 0 && user.token_1_withdrawn == 0
                &&& user.lp_tokens_owned == pool.lp_supply - LOCK_LP_AMOUNT
                &&& user.partner is None
                &&& user.first_investment_at == ctx.block_timestamp
            },
            Err(e) => initialize_error(*ctx, open_time, max_trade_fee_rate) == Some(e),
        },
{
    if ctx.token_0_mint.compare(&ctx.token_1_mint) != KeyOrder::Less {
        return Err(GammaError::InvalidAssetForPool);
    }
    if !(ctx.token_0_mint_supported && ctx.token_1_mint_supported) {
        return Err(GammaError::UnsupportedAssetKind);
    }
    if ctx.amm_config.disable_create_pool {
        return Err(GammaError::OperationDisabled);
    }
    let now = ctx.block_timestamp;
    let window_end = now as u128 + ctx.amm_config.max_open_time as u128;
    let clamped: u128 = if open_time <= now {
        now as u128 + 1
    } else {
        open_time as u128
    };
    if clamped > window_end {
        return Err(GammaError::InvalidActivationTime);
    }
    if clamped > u64::MAX as u128 {
        return Err(GammaError::ArithmeticOverflow);
    }
    let open_time = clamped as u64;
    if max_trade_fee_rate >= FEE_RATE_DENOMINATOR {
        return Err(GammaError::InvalidFeeRate);
    }
    let v0 = match unpack_token_account_amount(ctx.token_0_vault_data.as_slice()) {
        Some(a) => a,
        None => return Err(GammaError::InvalidAssetForPool),
    };
    let v1 = match unpack_token_account_amount(ctx.token_1_vault_data.as_slice()) {
        Some(a) => a,
        None => return Err(GammaError::InvalidAssetForPool),
    };
    if v0 == 0 || v1 == 0 {
        return Err(GammaError::ZeroTradeAmount);
    }
    assert((v0 as int) * (v1 as int) <= u128::MAX) by (nonlinear_arith)
        requires
            v0 <= u64::MAX,
            v1 <= u64::MAX,
    ;
    let liquidity = integer_sqrt(v0 as u128 * v1 as u128);
    if liquidity < LOCK_LP_AMOUNT {
        assert((v0 as int) * (v1 as int) < LOCK_LP_AMOUNT * LOCK_LP_AMOUNT) by (nonlinear_arith)
            requires
                (liquidity + 1) * (liquidity + 1) > (v0 as int) * (v1 as int),
                liquidity < LOCK_LP_AMOUNT,
                liquidity >= 0,
        ;
        return Err(GammaError::ArithmeticUnderflow);
    }
    assert((v0 as int) * (v1 as int) >= LOCK_LP_AMOUNT * LOCK_LP_AMOUNT) by (nonlinear_arith)
        requires
            liquidity * liquidity <= (v0 as int) * (v1 as int),
            liquidity >= LOCK_LP_AMOUNT,
    ;
    let pool = PoolState {
        amm_config: ctx.amm_config_key,
        pool_creator: ctx.creator,
        token_0_mint: ctx.token_0_mint,
        token_1_mint: ctx.token_1_mint,
        token_0_vault: ctx.token_0_vault,
        token_1_vault: ctx.token_1_vault,
        observation_key: ctx.observation_key,
        token_0_vault_amount: v0,
        token_1_vault_amount: v1,
        lp_supply: liquidity,
        protocol_fees_token_0: 0,
        protocol_fees_token_1: 0,
        fund_fees_token_0: 0,
        fund_fees_token_1: 0,
        cumulative_trade_fees_token_0: 0,
        cumulative_trade_fees_token_1: 0,
        cumulative_volume_token_0: 0,
        cumulative_volume_token_1: 0,
        partners: Vec::new(),
        status: STATUS_ALL,
        open_time,
        max_trade_fee_rate,
        volatility_factor,
        latest_dynamic_fee_rate: 0,
        recent_epoch: ctx.epoch,
    };
    let user = UserPoolLiquidity {
        user: ctx.creator,
        pool_state: ctx.pool_state_key,
        token_0_deposited: init_amount_0 as u128,
        token_1_deposited: init_amount_1 as u128,
        token_0_withdrawn: 0,
        token_1_withdrawn: 0,
        lp_tokens_owned: (liquidity - LOCK_LP_AMOUNT) as u128,
        partner: None,
        first_investment_at: now,
    };
    Ok((pool, user))
}

} // verus!
