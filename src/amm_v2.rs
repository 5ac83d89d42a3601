//! The pool's operations, one entry point each.
use vstd::prelude::*;

use crate::errors::AmmError;
use crate::instructions::initialize_pool::{valid_fee, InitializePool};
use crate::instructions::manage_liquidity::{
    deposit_result, with_lp_supply, withdraw_result, Deposit, ManageLiquidity, Withdrawal,
};
use crate::instructions::swap::{swap_result, Swap, SwapTokens};
use crate::state::LiquidityPool;

verus! {

/// Initializes a new liquidity pool with the fee ratio
/// `fee_basis_points_numerator / fee_basis_points_denominator`.
pub fn initialize_pool(
    ctx: &mut InitializePool,
    fee_basis_points_numerator: u64,
    fee_basis_points_denominator: u64,
) -> (r: Result<(), AmmError>)
    ensures
        r is Ok <==> valid_fee(fee_basis_points_numerator, fee_basis_points_denominator),
        r is Err ==> r == Err::<(), AmmError>(AmmError::InvalidFeeParameters) && *final(ctx) == *old(ctx),
        r is Ok ==> final(ctx).liquidity_pool == (LiquidityPool {
            total_lp_tokens_issued: 0,
            fee_numerator: fee_basis_points_numerator,
            fee_denominator: fee_basis_points_denominator,
        }),
{
    crate::instructions::initialize_pool::process(ctx, fee_basis_points_numerator, fee_basis_points_denominator)
}

/// Adds liquidity to the pool in exchange for LP tokens.
pub fn deposit_liquidity(ctx: &mut ManageLiquidity, token_a_amount: u64, token_b_amount: u64) -> (r: Result<
    Deposit,
    AmmError,
>)
    ensures
        match r {
            Ok(d) => {
                &&& deposit_result(*old(ctx), token_a_amount, token_b_amount) == Ok::<(int, int, int), AmmError>(
                    (d.token_a_amount as int, d.token_b_amount as int, d.lp_tokens_minted as int),
                )
                &&& *final(ctx) == with_lp_supply(
                    *old(ctx),
                    old(ctx).liquidity_pool.total_lp_tokens_issued + d.lp_tokens_minted,
                )
            },
            Err(e) => {
                &&& deposit_result(*old(ctx), token_a_amount, token_b_amount) == Err::<(int, int, int), AmmError>(e)
                &&& *final(ctx) == *old(ctx)
            },
        },
{
    crate::instructions::manage_liquidity::deposit(ctx, token_a_amount, token_b_amount)
}

/// Removes liquidity from the pool by burning LP tokens.
pub fn withdraw_liquidity(ctx: &mut ManageLiquidity, lp_tokens_to_burn: u64) -> (r: Result<Withdrawal, AmmError>)
    ensures
        match r {
            Ok(w) => {
                &&& withdraw_result(*old(ctx), lp_tokens_to_burn) == Ok::<(int, int), AmmError>(
                    (w.token_a_amount as int, w.token_b_amount as int),
                )
                &&& w.lp_tokens_burned == lp_tokens_to_burn
                &&& *final(ctx) == with_lp_supply(
                    *old(ctx),
                    old(ctx).liquidity_pool.total_lp_tokens_issued - lp_tokens_to_burn,
                )
            },
            Err(e) => {
                &&& withdraw_result(*old(ctx), lp_tokens_to_burn) == Err::<(int, int), AmmError>(e)
                &&& *final(ctx) == *old(ctx)
            },
        },
{
    crate::instructions::manage_liquidity::withdraw(ctx, lp_tokens_to_burn)
}

/// Swaps tokens at the constant-product price.
pub fn swap_tokens(ctx: &SwapTokens, input_amount: u64, minimum_output_amount: u64) -> (r: Result<Swap, AmmError>)
    ensures
        match r {
            Ok(s) => {
                &&& swap_result(*ctx, input_amount, minimum_output_amount) == Ok::<(int, int), AmmError>(
                    (s.fee_amount as int, s.output_amount as int),
                )
                &&& s.input_amount == input_amount
            },
            Err(e) => swap_result(*ctx, input_amount, minimum_output_amount) == Err::<(int, int), AmmError>(e),
        },
{
    crate::instructions::swap::process(ctx, input_amount, minimum_output_amount)
}

} // verus!
