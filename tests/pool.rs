use ammv2::amm_v2::{deposit_liquidity, initialize_pool, swap_tokens, withdraw_liquidity};
use ammv2::errors::AmmError;
use ammv2::instructions::initialize_pool::InitializePool;
use ammv2::instructions::manage_liquidity::{deposit, withdraw, Deposit, ManageLiquidity, Withdrawal};
use ammv2::instructions::swap::{process, Swap, SwapTokens};
use ammv2::state::LiquidityPool;

fn pool(total: u64, numerator: u64, denominator: u64) -> LiquidityPool {
    LiquidityPool { total_lp_tokens_issued: total, fee_numerator: numerator, fee_denominator: denominator }
}

fn liquidity(total: u64, vault_a: u64, vault_b: u64) -> ManageLiquidity {
    ManageLiquidity {
        liquidity_pool: pool(total, 3, 1000),
        token_a_vault: vault_a,
        token_b_vault: vault_b,
        user_token_a_account: u64::MAX,
        user_token_b_account: u64::MAX,
        user_lp_token_account: u64::MAX,
    }
}

fn swap_ctx(vault_in: u64, vault_out: u64) -> SwapTokens {
    SwapTokens {
        liquidity_pool: pool(0, 3, 1000),
        input_token_vault: vault_in,
        output_token_vault: vault_out,
        user_input_token_account: u64::MAX,
    }
}

#[test]
fn fee_is_floor_of_ratio() {
    let p = pool(0, 3, 1000);
    assert_eq!(p.calculate_fee(1000), Ok(3));
    assert_eq!(p.calculate_fee(999), Ok(2));
    assert_eq!(p.calculate_fee(0), Ok(0));
    assert_eq!(pool(0, 1, 3).calculate_fee(10), Ok(3));
}

#[test]
fn fee_is_monotonic() {
    let p = pool(0, 7, 13);
    let mut previous = 0u128;
    for amount in 0u128..500 {
        let fee = p.calculate_fee(amount).unwrap();
        assert_eq!(fee, amount * 7 / 13);
        assert!(fee >= previous);
        previous = fee;
    }
}

#[test]
fn fee_fails_on_zero_denominator_or_overflow() {
    assert_eq!(pool(0, 3, 0).calculate_fee(10), Err(AmmError::MathOverflow));
    assert_eq!(pool(0, 3, 1000).calculate_fee(u128::MAX), Err(AmmError::MathOverflow));
}

#[test]
fn initialize_sets_fee_and_zero_supply() {
    let mut ctx = InitializePool { liquidity_pool: pool(77, 0, 0) };
    assert_eq!(initialize_pool(&mut ctx, 3, 1000), Ok(()));
    assert_eq!(ctx.liquidity_pool, pool(0, 3, 1000));
}

#[test]
fn initialize_rejects_invalid_fee() {
    let mut ctx = InitializePool { liquidity_pool: LiquidityPool::default() };
    assert_eq!(initialize_pool(&mut ctx, 1000, 1000), Err(AmmError::InvalidFeeParameters));
    assert_eq!(initialize_pool(&mut ctx, 0, 0), Err(AmmError::InvalidFeeParameters));
    assert_eq!(initialize_pool(&mut ctx, 1001, 1000), Err(AmmError::InvalidFeeParameters));
    assert_eq!(ctx.liquidity_pool, LiquidityPool::default());
    assert_eq!(initialize_pool(&mut ctx, 0, 1), Ok(()));
}

#[test]
fn empty_pool_deposit_mints_mean() {
    let mut ctx = liquidity(0, 0, 0);
    let r = deposit_liquidity(&mut ctx, 1000, 2000);
    assert_eq!(r, Ok(Deposit { token_a_amount: 1000, token_b_amount: 2000, lp_tokens_minted: 1500 }));
    assert_eq!(ctx.liquidity_pool.total_lp_tokens_issued, 1500);
}

#[test]
fn empty_pool_deposit_of_largest_amounts() {
    let mut ctx = liquidity(0, 0, 0);
    let r = deposit(&mut ctx, u64::MAX, u64::MAX);
    assert_eq!(r, Ok(Deposit { token_a_amount: u64::MAX, token_b_amount: u64::MAX, lp_tokens_minted: u64::MAX }));
}

#[test]
fn ratio_preserving_deposit() {
    let mut ctx = liquidity(1500, 1000, 2000);
    let r = deposit(&mut ctx, 100, 250);
    assert_eq!(r, Ok(Deposit { token_a_amount: 100, token_b_amount: 200, lp_tokens_minted: 150 }));
    assert_eq!(ctx.liquidity_pool.total_lp_tokens_issued, 1650);
    assert_eq!(ctx.liquidity_pool.fee_numerator, 3);
    assert_eq!(ctx.token_a_vault, 1000);
}

#[test]
fn deposit_rate_is_truncated() {
    // 2500 / 1000 truncates to a rate of 2
    let mut ctx = liquidity(1000, 1000, 2500);
    let r = deposit(&mut ctx, 10, 100);
    assert_eq!(r, Ok(Deposit { token_a_amount: 10, token_b_amount: 20, lp_tokens_minted: 8 }));
}

#[test]
fn deposit_short_of_required_b() {
    let mut ctx = liquidity(1500, 1000, 2000);
    let before = ctx;
    assert_eq!(deposit(&mut ctx, 100, 199), Err(AmmError::InsufficientBalance));
    assert_eq!(ctx, before);
}

#[test]
fn deposit_beyond_user_balance() {
    let mut ctx = liquidity(1500, 1000, 2000);
    ctx.user_token_a_account = 50;
    assert_eq!(deposit(&mut ctx, 100, 200), Err(AmmError::InsufficientBalance));
    ctx.user_token_a_account = 100;
    ctx.user_token_b_account = 150;
    assert_eq!(deposit(&mut ctx, 100, 200), Err(AmmError::InsufficientBalance));
}

#[test]
fn dust_deposit_mints_nothing() {
    let mut ctx = liquidity(1, 1000, 2000);
    assert_eq!(deposit(&mut ctx, 1, 2), Err(AmmError::InvalidLpTokenAmount));
    let mut empty = liquidity(0, 0, 0);
    assert_eq!(deposit(&mut empty, 1, 0), Err(AmmError::InvalidLpTokenAmount));
}

#[test]
fn deposit_math_errors() {
    let mut one_sided = liquidity(10, 0, 500);
    assert_eq!(deposit(&mut one_sided, 10, 10), Err(AmmError::MathOverflow));
    let mut empty_b = liquidity(10, 500, 0);
    assert_eq!(deposit(&mut empty_b, 10, 10), Err(AmmError::MathOverflow));
    let mut full = liquidity(u64::MAX, 1, 1);
    assert_eq!(deposit(&mut full, 1, 1), Err(AmmError::MathOverflow));
    let mut full_empty = liquidity(u64::MAX, 0, 0);
    assert_eq!(deposit(&mut full_empty, 2, 0), Err(AmmError::MathOverflow));
}

#[test]
fn withdraw_is_proportional() {
    let mut ctx = liquidity(1500, 1000, 2000);
    let r = withdraw_liquidity(&mut ctx, 150);
    assert_eq!(r, Ok(Withdrawal { token_a_amount: 100, token_b_amount: 200, lp_tokens_burned: 150 }));
    assert_eq!(ctx.liquidity_pool.total_lp_tokens_issued, 1350);
}

#[test]
fn withdraw_never_exceeds_vault() {
    for burn in 0u64..=37 {
        let mut ctx = liquidity(37, 1001, 99);
        let w = withdraw(&mut ctx, burn).unwrap();
        assert!(w.token_a_amount <= 1001);
        assert!(w.token_b_amount <= 99);
        assert_eq!(w.token_a_amount, burn * 1001 / 37);
    }
    let mut all = liquidity(u64::MAX, u64::MAX, 5);
    let w = withdraw(&mut all, u64::MAX).unwrap();
    assert_eq!((w.token_a_amount, w.token_b_amount), (u64::MAX, 5));
    assert_eq!(all.liquidity_pool.total_lp_tokens_issued, 0);
}

#[test]
fn withdraw_errors() {
    let mut ctx = liquidity(100, 1000, 2000);
    assert_eq!(withdraw(&mut ctx, 101), Err(AmmError::ExcessiveBurnAmount));
    ctx.user_lp_token_account = 5;
    assert_eq!(withdraw(&mut ctx, 6), Err(AmmError::InsufficientBalance));
    let mut empty = liquidity(0, 0, 0);
    assert_eq!(withdraw(&mut empty, 0), Err(AmmError::MathOverflow));
}

#[test]
fn swap_end_to_end() {
    let ctx = swap_ctx(100000, 50000);
    let r = swap_tokens(&ctx, 1000, 400);
    assert_eq!(r, Ok(Swap { input_amount: 1000, fee_amount: 3, output_amount: 494 }));
}

#[test]
fn swap_output_follows_constant_product() {
    let ctx = swap_ctx(7919, 104729);
    for input in [0u64, 1, 2, 999, 12345, 1 << 40] {
        let s = process(&ctx, input, 0).unwrap();
        let fee = input as u128 * 3 / 1000;
        let new_in = 7919u128 + input as u128 - fee;
        let new_out = 7919u128 * 104729 / new_in;
        assert_eq!(s.fee_amount as u128, fee);
        assert_eq!(s.output_amount as u128, 104729 - new_out);
        assert!(s.output_amount <= 104729);
        assert!(new_in * new_out <= 7919u128 * 104729);
    }
}

#[test]
fn swap_errors() {
    let ctx = swap_ctx(100000, 50000);
    assert_eq!(process(&ctx, 1000, 495), Err(AmmError::SlippageExceeded));
    let mut poor = ctx;
    poor.user_input_token_account = 10;
    assert_eq!(process(&poor, 1000, 0), Err(AmmError::InsufficientBalance));
    let empty = swap_ctx(0, 0);
    assert_eq!(process(&empty, 0, 0), Err(AmmError::MathOverflow));
    let mut bad_fee = ctx;
    bad_fee.liquidity_pool.fee_denominator = 0;
    assert_eq!(process(&bad_fee, 10, 0), Err(AmmError::MathOverflow));
    bad_fee.liquidity_pool.fee_denominator = 1;
    assert_eq!(process(&bad_fee, 10, 0), Err(AmmError::MathOverflow));
}

#[test]
fn error_messages() {
    assert_eq!(AmmError::SlippageExceeded.message(), "Output amount is less than the specified minimum");
    assert_eq!(AmmError::InvalidFeeParameters.message(), "Invalid fee configuration");
}
