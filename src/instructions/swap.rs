use vstd::prelude::*;

use crate::errors::AmmError;
use crate::state::{fee_of, LiquidityPool};

verus! {

/// What a swap reads: the pool record and a snapshot of the balances involved.
#[derive(Clone, Copy, Debug, PartialEq, Eq, Structural)]
pub struct SwapTokens {
    pub liquidity_pool: LiquidityPool,
    /// Balance of the vault of the token being sold.
    pub input_token_vault: u64,
    /// Balance of the vault of the token being bought.
    pub output_token_vault: u64,
    /// The user's balance of the token being sold.
    pub user_input_token_account: u64,
}

/// The movements a swap asks for: `input_amount` (fee included) goes from the
/// user to the input vault, `output_amount` from the output vault to the user.
#[derive(Clone, Copy, Debug, PartialEq, Eq, Structural)]
pub struct Swap {
    pub input_amount: u64,
    /// The part of the input kept as fee; it stays in the input vault.
    pub fee_amount: u64,
    pub output_amount: u64,
}

/// Output vault balance after `net_input` is added to the input vault, kept at
/// the constant product `vault_in * vault_out` and rounded down.
pub open spec fn new_output_vault(vault_in: int, vault_out: int, net_input: int) -> int {
    (vault_in * vault_out) / (vault_in + net_input)
}

/// The outcome of selling `input_amount` for at least `minimum_output` given
/// what `ctx` reads: the fee and the output amount, or the error.
pub open spec fn swap_result(ctx: SwapTokens, input_amount: u64, minimum_output: u64) -> Result<(int, int), AmmError> {
    let pool = ctx.liquidity_pool;
    let vault_in = ctx.input_token_vault as int;
    let vault_out = ctx.output_token_vault as int;
    let fee = fee_of(input_amount as int, pool.fee_numerator as int, pool.fee_denominator as int);
    if ctx.user_input_token_account < input_amount {
        Err(AmmError::InsufficientBalance)
    } else if pool.fee_denominator == 0 || fee > input_amount {
        Err(AmmError::MathOverflow)
    } else if vault_in + (input_amount - fee) == 0 {
        Err(AmmError::MathOverflow)
    } else {
        let output = vault_out - new_output_vault(vault_in, vault_out, input_amount - fee);
        if output < minimum_output {
            Err(AmmError::SlippageExceeded)
        } else {
            Ok((fee, output))
        }
    }
}

/// Sells `input_amount` of one token for the other at the constant-product
/// price, after the pool's fee, and fails when the output is below
/// `minimum_output_amount`.
pub fn process(ctx: &SwapTokens, input_amount: u64, minimum_output_amount: u64) -> (r: Result<Swap, AmmError>)
    ensures
        match r {
            Ok(s) => {
                &&& swap_result(*ctx, input_amount, minimum_output_amount) == Ok::<(int, int), AmmError>(
                    (s.fee_amount as int, s.output_amount as int),
                )
                &&& s.input_amount == input_amount
                &&& s.output_amount <= ctx.output_token_vault
                &&& s.output_amount >= minimum_output_amount
            },
            Err(e) => swap_result(*ctx, input_amount, minimum_output_amount) == Err::<(int, int), AmmError>(e),
        },
        ctx.liquidity_pool.wf() && ctx.user_input_token_account >= input_amount
            && ctx.input_token_vault + input_amount > 0 ==> match r {
            Ok(_) => true,
            Err(e) => e == AmmError::SlippageExceeded,
        },
{
    if ctx.user_input_token_account < input_amount {
        return Err(AmmError::InsufficientBalance);
    }
    let pool = &ctx.liquidity_pool;
    let input_vault_balance = ctx.input_token_vault as u128;
    let output_vault_balance = ctx.output_token_vault as u128;

    proof {
        let (x, y) = (input_amount as int, pool.fee_numerator as int);
        assert(0 <= x * y <= u128::MAX) by (nonlinear_arith)
            requires 0 <= x <= u64::MAX, 0 <= y <= u64::MAX;
    }
    proof {
        if pool.wf() {
            crate::state::lemma_fee_below_amount(
                input_amount as int,
                pool.fee_numerator as int,
                pool.fee_denominator as int,
            );
        }
    }
    let fee_amount = match pool.calculate_fee(input_amount as u128) {
        Ok(fee) => fee,
        Err(e) => return Err(e),
    };
    if fee_amount > input_amount as u128 {
        return Err(AmmError::MathOverflow);
    }
    let input_after_fee = input_amount as u128 - fee_amount;
    let new_input_vault_balance = input_vault_balance + input_after_fee;
    if new_input_vault_balance == 0 {
        return Err(AmmError::MathOverflow);
    }
    proof {
        let (x, y) = (input_vault_balance as int, output_vault_balance as int);
        assert(0 <= x * y <= u128::MAX) by (nonlinear_arith)
            requires 0 <= x <= u64::MAX, 0 <= y <= u64::MAX;
        lemma_output_within_vault(x, y, input_after_fee as int);
    }
    let product = input_vault_balance * output_vault_balance;
    let new_output_vault_balance = product / new_input_vault_balance;
    let output_amount = output_vault_balance - new_output_vault_balance;
    if output_amount < minimum_output_amount as u128 {
        return Err(AmmError::SlippageExceeded);
    }
    Ok(Swap { input_amount, fee_amount: fee_amount as u64, output_amount: output_amount as u64 })
}

/// A swap never takes the output vault below zero: the new output balance lies
/// between zero and the old one, so the output amount is between zero and the
/// vault's balance. Rounding the new output balance down never lets the
/// product of the vaults, counted with the net input, exceed the old product.
pub proof fn lemma_output_within_vault(vault_in: int, vault_out: int, net_input: int)
    requires
        0 <= vault_in,
        0 <= vault_out,
        0 <= net_input,
        vault_in + net_input > 0,
    ensures
        0 <= new_output_vault(vault_in, vault_out, net_input) <= vault_out,
        0 <= vault_out - new_output_vault(vault_in, vault_out, net_input) <= vault_out,
        (vault_in + net_input) * new_output_vault(vault_in, vault_out, net_input) <= vault_in * vault_out,
{
    let d = vault_in + net_input;
    vstd::arithmetic::div_mod::lemma_fundamental_div_mod(vault_in * vault_out, d);
    vstd::arithmetic::div_mod::lemma_mod_bound(vault_in * vault_out, d);
    assert(0 <= vault_in * vault_out <= d * vault_out) by (nonlinear_arith)
        requires 0 <= vault_in <= d, 0 <= vault_out;
    vstd::arithmetic::div_mod::lemma_div_is_ordered(vault_in * vault_out, d * vault_out, d);
    vstd::arithmetic::div_mod::lemma_div_multiples_vanish(vault_out, d);
    vstd::arithmetic::div_mod::lemma_div_pos_is_pos(vault_in * vault_out, d);
}

} // verus!
