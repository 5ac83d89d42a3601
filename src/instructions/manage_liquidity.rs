use vstd::prelude::*;

use crate::errors::AmmError;
use crate::state::LiquidityPool;

verus! {

/// What a deposit or a withdrawal reads: the pool record and a snapshot of the
/// balances involved.
#[derive(Clone, Copy, Debug, PartialEq, Eq, Structural)]
pub struct ManageLiquidity {
    pub liquidity_pool: LiquidityPool,
    /// Balance of the pool's token A vault.
    pub token_a_vault: u64,
    /// Balance of the pool's token B vault.
    pub token_b_vault: u64,
    /// The user's token A balance.
    pub user_token_a_account: u64,
    /// The user's token B balance.
    pub user_token_b_account: u64,
    /// The user's LP token balance.
    pub user_lp_token_account: u64,
}

/// The movements a deposit asks for: both amounts go from the user to the
/// vaults, and `lp_tokens_minted` LP tokens are minted to the user.
#[derive(Clone, Copy, Debug, PartialEq, Eq, Structural)]
pub struct Deposit {
    pub token_a_amount: u64,
    pub token_b_amount: u64,
    pub lp_tokens_minted: u64,
}

/// The movements a withdrawal asks for: both amounts go from the vaults to the
/// user, and `lp_tokens_burned` of the user's LP tokens are burned.
#[derive(Clone, Copy, Debug, PartialEq, Eq, Structural)]
pub struct Withdrawal {
    pub token_a_amount: u64,
    pub token_b_amount: u64,
    pub lp_tokens_burned: u64,
}

/// Token B owed with `amount_a` of token A: `amount_a` times the whole number of
/// B per A held in the vaults.
pub open spec fn required_b(vault_a: int, vault_b: int, amount_a: int) -> int {
    amount_a * (vault_b / vault_a)
}

/// LP tokens minted for `deposit_b` of token B, in proportion to the B vault.
pub open spec fn proportional_lp(deposit_b: int, total_lp: int, vault_b: int) -> int {
    deposit_b * total_lp / vault_b
}

/// The outcome of depositing `(amount_a, amount_b)` into a pool with `total_lp`
/// LP tokens issued and vault balances `(vault_a, vault_b)`: the amounts taken
/// and the LP tokens minted, or the error.
pub open spec fn deposit_outcome(total_lp: int, vault_a: int, vault_b: int, amount_a: int, amount_b: int)
    -> Result<(int, int, int), AmmError>
{
    if vault_a == 0 && vault_b == 0 {
        let lp = (amount_a + amount_b) / 2;
        if lp == 0 {
            Err(AmmError::InvalidLpTokenAmount)
        } else if total_lp + lp > u64::MAX {
            Err(AmmError::MathOverflow)
        } else {
            Ok((amount_a, amount_b, lp))
        }
    } else if vault_a == 0 {
        Err(AmmError::MathOverflow)
    } else if required_b(vault_a, vault_b, amount_a) > amount_b {
        Err(AmmError::InsufficientBalance)
    } else if vault_b == 0 {
        Err(AmmError::MathOverflow)
    } else {
        let b = required_b(vault_a, vault_b, amount_a);
        let lp = proportional_lp(b, total_lp, vault_b);
        if lp == 0 {
            Err(AmmError::InvalidLpTokenAmount)
        } else if total_lp + lp > u64::MAX {
            Err(AmmError::MathOverflow)
        } else {
            Ok((amount_a, b, lp))
        }
    }
}

/// The share of a vault holding `vault` paid out for burning `burn` of
/// `total_lp` LP tokens.
pub open spec fn proportional_payout(burn: int, vault: int, total_lp: int) -> int {
    burn * vault / total_lp
}

/// The outcome of a deposit of `(amount_a, amount_b)` given what `ctx` reads,
/// the user's balances checked first.
pub open spec fn deposit_result(ctx: ManageLiquidity, amount_a: u64, amount_b: u64) -> Result<(int, int, int), AmmError> {
    if ctx.user_token_a_account < amount_a || ctx.user_token_b_account < amount_b {
        Err(AmmError::InsufficientBalance)
    } else {
        deposit_outcome(
            ctx.liquidity_pool.total_lp_tokens_issued as int,
            ctx.token_a_vault as int,
            ctx.token_b_vault as int,
            amount_a as int,
            amount_b as int,
        )
    }
}

/// The outcome of burning `burn` LP tokens given what `ctx` reads: the
/// amounts of A and B paid out, or the error.
pub open spec fn withdraw_result(ctx: ManageLiquidity, burn: u64) -> Result<(int, int), AmmError> {
    let total_lp = ctx.liquidity_pool.total_lp_tokens_issued;
    if ctx.user_lp_token_account < burn {
        Err(AmmError::InsufficientBalance)
    } else if total_lp < burn {
        Err(AmmError::ExcessiveBurnAmount)
    } else if total_lp == 0 {
        Err(AmmError::MathOverflow)
    } else {
        Ok((
            proportional_payout(burn as int, ctx.token_a_vault as int, total_lp as int),
            proportional_payout(burn as int, ctx.token_b_vault as int, total_lp as int),
        ))
    }
}

/// `ctx` with the pool's LP supply set to `total_lp`, all else kept.
pub open spec fn with_lp_supply(ctx: ManageLiquidity, total_lp: int) -> ManageLiquidity {
    ManageLiquidity {
        liquidity_pool: LiquidityPool { total_lp_tokens_issued: total_lp as u64, ..ctx.liquidity_pool },
        ..ctx
    }
}

/// Adds liquidity: decides how much of each token the user puts in and how
/// many LP tokens are minted for it, and records the new LP supply.
///
/// An empty pool takes both amounts as offered and mints their mean. Otherwise
/// the pool takes all of token A and `amount_a * floor(vault_b / vault_a)` of
/// token B, and mints LP tokens in proportion to the B vault.
pub fn deposit(ctx: &mut ManageLiquidity, token_a_amount: u64, token_b_amount: u64) -> (r: Result<Deposit, AmmError>)
    ensures
        match r {
            Ok(d) => {
                &&& deposit_result(*old(ctx), token_a_amount, token_b_amount) == Ok::<(int, int, int), AmmError>(
                    (d.token_a_amount as int, d.token_b_amount as int, d.lp_tokens_minted as int),
                )
                &&& *final(ctx) == with_lp_supply(
                    *old(ctx),
                    old(ctx).liquidity_pool.total_lp_tokens_issued + d.lp_tokens_minted,
                )
            },
            Err(e) => {
                &&& deposit_result(*old(ctx), token_a_amount, token_b_amount) == Err::<(int, int, int), AmmError>(e)
                &&& *final(ctx) == *old(ctx)
            },
        },
        r is Ok ==> r->Ok_0.lp_tokens_minted > 0 && r->Ok_0.token_a_amount == token_a_amount,
        old(ctx).user_token_a_account >= token_a_amount && old(ctx).user_token_b_account >= token_b_amount
            && old(ctx).token_a_vault > 0 && required_b(
            old(ctx).token_a_vault as int,
            old(ctx).token_b_vault as int,
            token_a_amount as int,
        ) > token_b_amount ==> r == Err::<Deposit, AmmError>(AmmError::InsufficientBalance),
        old(ctx).user_token_a_account >= token_a_amount && old(ctx).user_token_b_account >= token_b_amount
            && old(ctx).token_a_vault > 0 && old(ctx).token_b_vault > 0 && ({
            let b = required_b(old(ctx).token_a_vault as int, old(ctx).token_b_vault as int, token_a_amount as int);
            b <= token_b_amount && proportional_lp(
                b,
                old(ctx).liquidity_pool.total_lp_tokens_issued as int,
                old(ctx).token_b_vault as int,
            ) == 0
        }) ==> r == Err::<Deposit, AmmError>(AmmError::InvalidLpTokenAmount),
{
    if ctx.user_token_a_account < token_a_amount || ctx.user_token_b_account < token_b_amount {
        return Err(AmmError::InsufficientBalance);
    }
    let vault_a_balance = ctx.token_a_vault;
    let vault_b_balance = ctx.token_b_vault;
    let total_lp = ctx.liquidity_pool.total_lp_tokens_issued;

    let actual_token_b_deposit: u64;
    let lp_tokens_to_mint: u128;
    if vault_a_balance == 0 && vault_b_balance == 0 {
        lp_tokens_to_mint = (token_a_amount as u128 + token_b_amount as u128) / 2;
        actual_token_b_deposit = token_b_amount;
    } else {
        let exchange_rate_b_per_a = match (vault_b_balance as u128).checked_div(vault_a_balance as u128) {
            Some(rate) => rate,
            None => return Err(AmmError::MathOverflow),
        };
        proof {
            let (x, y) = (token_a_amount as int, exchange_rate_b_per_a as int);
            assert(0 <= x * y <= u128::MAX) by (nonlinear_arith)
                requires 0 <= x <= u64::MAX, 0 <= y <= u64::MAX;
        }
        let required_token_b = token_a_amount as u128 * exchange_rate_b_per_a;
        if required_token_b > token_b_amount as u128 {
            return Err(AmmError::InsufficientBalance);
        }
        actual_token_b_deposit = required_token_b as u64;
        proof {
            let (x, y) = (required_token_b as int, total_lp as int);
            assert(0 <= x * y <= u128::MAX) by (nonlinear_arith)
                requires 0 <= x <= u64::MAX, 0 <= y <= u64::MAX;
        }
        let product = required_token_b * total_lp as u128;
        lp_tokens_to_mint = match product.checked_div(vault_b_balance as u128) {
            Some(lp) => lp,
            None => return Err(AmmError::MathOverflow),
        };
    }

    if lp_tokens_to_mint == 0 {
        return Err(AmmError::InvalidLpTokenAmount);
    }
    let new_total = match (total_lp as u128).checked_add(lp_tokens_to_mint) {
        Some(t) => t,
        None => return Err(AmmError::MathOverflow),
    };
    if new_total > u64::MAX as u128 {
        return Err(AmmError::MathOverflow);
    }
    ctx.liquidity_pool.total_lp_tokens_issued = new_total as u64;
    Ok(Deposit {
        token_a_amount,
        token_b_amount: actual_token_b_deposit,
        lp_tokens_minted: lp_tokens_to_mint as u64,
    })
}

/// Removes liquidity: pays out the burned LP tokens' share of each vault,
/// rounded down, and records the new LP supply.
pub fn withdraw(ctx: &mut ManageLiquidity, lp_tokens_to_burn: u64) -> (r: Result<Withdrawal, AmmError>)
    ensures
        match r {
            Ok(w) => {
                &&& withdraw_result(*old(ctx), lp_tokens_to_burn) == Ok::<(int, int), AmmError>(
                    (w.token_a_amount as int, w.token_b_amount as int),
                )
                &&& w.lp_tokens_burned == lp_tokens_to_burn
                &&& w.token_a_amount <= old(ctx).token_a_vault
                &&& w.token_b_amount <= old(ctx).token_b_vault
                &&& *final(ctx) == with_lp_supply(
                    *old(ctx),
                    old(ctx).liquidity_pool.total_lp_tokens_issued - lp_tokens_to_burn,
                )
            },
            Err(e) => {
                &&& withdraw_result(*old(ctx), lp_tokens_to_burn) == Err::<(int, int), AmmError>(e)
                &&& *final(ctx) == *old(ctx)
            },
        },
{
    if ctx.user_lp_token_account < lp_tokens_to_burn {
        return Err(AmmError::InsufficientBalance);
    }
    let total_lp = ctx.liquidity_pool.total_lp_tokens_issued;
    if total_lp < lp_tokens_to_burn {
        return Err(AmmError::ExcessiveBurnAmount);
    }
    if total_lp == 0 {
        return Err(AmmError::MathOverflow);
    }
    let token_a_withdrawal = share_of_vault(lp_tokens_to_burn, ctx.token_a_vault, total_lp);
    let token_b_withdrawal = share_of_vault(lp_tokens_to_burn, ctx.token_b_vault, total_lp);
    ctx.liquidity_pool.total_lp_tokens_issued = total_lp - lp_tokens_to_burn;
    Ok(Withdrawal {
        token_a_amount: token_a_withdrawal,
        token_b_amount: token_b_withdrawal,
        lp_tokens_burned: lp_tokens_to_burn,
    })
}

/// `floor(burn * vault / total_lp)`, computed in 128 bits; no more than the vault.
fn share_of_vault(burn: u64, vault: u64, total_lp: u64) -> (r: u64)
    requires
        0 < total_lp,
        burn <= total_lp,
    ensures
        r == proportional_payout(burn as int, vault as int, total_lp as int),
        r <= vault,
{
    proof {
        lemma_payout_within_vault(burn as int, vault as int, total_lp as int);
        let (x, y) = (burn as int, vault as int);
        assert(0 <= x * y <= u128::MAX) by (nonlinear_arith)
            requires 0 <= x <= u64::MAX, 0 <= y <= u64::MAX;
    }
    let share = (burn as u128 * vault as u128) / total_lp as u128;
    share as u64
}

/// Burning no more LP tokens than were issued pays out no more than a vault
/// holds, and nothing below zero.
pub proof fn lemma_payout_within_vault(burn: int, vault: int, total_lp: int)
    requires
        0 <= burn <= total_lp,
        0 < total_lp,
        0 <= vault,
    ensures
        0 <= proportional_payout(burn, vault, total_lp) <= vault,
{
    assert(0 <= burn * vault <= total_lp * vault) by (nonlinear_arith)
        requires 0 <= burn <= total_lp, 0 <= vault;
    vstd::arithmetic::div_mod::lemma_div_is_ordered(burn * vault, total_lp * vault, total_lp);
    vstd::arithmetic::div_mod::lemma_div_multiples_vanish(vault, total_lp);
    vstd::arithmetic::div_mod::lemma_div_pos_is_pos(burn * vault, total_lp);
}

} // verus!
