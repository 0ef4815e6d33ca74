use hotel_tokenization::ledger::{Authorizer, LedgerInstruction};
use hotel_tokenization::liquidity_pool::{
    ErrorCode, LiquidityProvidedEvent, LiquidityWithdrawnEvent, Pool,
};

const AUTHORITY: u64 = 9;
const USDC_MINT: u64 = 1;
const LP_MINT: u64 = 2;
const USER: u64 = 61;
const USER_USDC: u64 = 62;
const USER_LP: u64 = 63;
const POOL_USDC: u64 = 70;

fn fresh_pool() -> Pool {
    let (pool, _) = Pool::initialize(AUTHORITY, USDC_MINT, LP_MINT, 30);
    pool
}

#[test]
fn initialize_yields_empty_pool() {
    let (pool, instr) = Pool::initialize(AUTHORITY, USDC_MINT, LP_MINT, 30);
    assert_eq!(pool.authority, AUTHORITY);
    assert_eq!(pool.usdc_mint, USDC_MINT);
    assert_eq!(pool.lp_token_mint, LP_MINT);
    assert_eq!(pool.total_liquidity, 0);
    assert_eq!(
        instr,
        LedgerInstruction::CreateAsset { decimals: 9, transfer_fee_basis_points: 30 }
    );
}

#[test]
fn provide_mints_shares_one_to_one() {
    let mut pool = fresh_pool();
    let out = pool.provide_liquidity(1000, USER, USER_USDC, POOL_USDC, USER_LP);
    assert_eq!(
        out.deposit,
        LedgerInstruction::Transfer {
            from: USER_USDC,
            to: POOL_USDC,
            amount: 1000,
            authority: Authorizer::Caller(USER),
        }
    );
    assert_eq!(
        out.mint_shares,
        LedgerInstruction::Mint { to: USER_LP, amount: 1000, authority: Authorizer::Record }
    );
    assert_eq!(
        out.event,
        LiquidityProvidedEvent { user: USER, usdc_amount: 1000, lp_tokens_minted: 1000 }
    );
    assert_eq!(pool.total_liquidity, 1000);
}

#[test]
fn zero_amount_deposit_succeeds() {
    let mut pool = fresh_pool();
    let out = pool.provide_liquidity(0, USER, USER_USDC, POOL_USDC, USER_LP);
    assert_eq!(pool.total_liquidity, 0);
    assert_eq!(
        out.event,
        LiquidityProvidedEvent { user: USER, usdc_amount: 0, lp_tokens_minted: 0 }
    );
}

#[test]
fn provide_then_withdraw_is_a_round_trip() {
    let mut pool = fresh_pool();
    pool.provide_liquidity(500, USER, USER_USDC, POOL_USDC, USER_LP);
    let before: u64 = pool.total_liquidity;
    pool.provide_liquidity(1000, USER, USER_USDC, POOL_USDC, USER_LP);
    let out = pool.withdraw_liquidity(1000, USER, USER_USDC, POOL_USDC, USER_LP).unwrap();
    assert_eq!(out.event.usdc_returned, 1000);
    assert_eq!(pool.total_liquidity, before);
}

#[test]
fn withdraw_burns_then_refunds() {
    let mut pool = fresh_pool();
    pool.provide_liquidity(800, USER, USER_USDC, POOL_USDC, USER_LP);
    let out = pool.withdraw_liquidity(300, USER, USER_USDC, POOL_USDC, USER_LP).unwrap();
    assert_eq!(
        out.burn_shares,
        LedgerInstruction::Burn { from: USER_LP, amount: 300, authority: Authorizer::Caller(USER) }
    );
    assert_eq!(
        out.refund,
        LedgerInstruction::Transfer {
            from: POOL_USDC,
            to: USER_USDC,
            amount: 300,
            authority: Authorizer::Record,
        }
    );
    assert_eq!(
        out.event,
        LiquidityWithdrawnEvent { user: USER, lp_tokens_burned: 300, usdc_returned: 300 }
    );
    assert_eq!(pool.total_liquidity, 500);
}

#[test]
fn withdraw_beyond_liquidity_is_refused_unchanged() {
    let mut pool = fresh_pool();
    pool.provide_liquidity(100, USER, USER_USDC, POOL_USDC, USER_LP);
    let r = pool.withdraw_liquidity(101, USER, USER_USDC, POOL_USDC, USER_LP);
    assert_eq!(r.unwrap_err(), ErrorCode::InsufficientLiquidity);
    assert_eq!(pool.total_liquidity, 100);
}
