use vstd::prelude::*;

use crate::errors::AmmError;

verus! {

/// `floor(amount * numerator / denominator)`: the fee charged on `amount`.
pub open spec fn fee_of(amount: int, numerator: int, denominator: int) -> int {
    amount * numerator / denominator
}

/// The persistent record of a pool: its fee ratio and its LP token supply.
#[derive(Clone, Copy, Debug, PartialEq, Eq, Structural)]
pub struct LiquidityPool {
    /// Total LP tokens minted to all liquidity providers, net of burns.
    pub total_lp_tokens_issued: u64,
    /// Numerator of the fee ratio (3 with a denominator of 1000 is 0.3%).
    pub fee_numerator: u64,
    /// Denominator of the fee ratio.
    pub fee_denominator: u64,
}

impl LiquidityPool {
    /// The fee ratio is a fraction in `[0, 1)`.
    pub open spec fn wf(&self) -> bool {
        &&& self.fee_denominator > 0
        &&& self.fee_numerator < self.fee_denominator
    }

    /// The fee on `amount`, rounded down, computed in 128 bits.
    pub fn calculate_fee(&self, amount: u128) -> (r: Result<u128, AmmError>)
        ensures
            match r {
                Ok(fee) => {
                    &&& self.fee_denominator > 0
                    &&& amount * self.fee_numerator <= u128::MAX
                    &&& fee == fee_of(amount as int, self.fee_numerator as int, self.fee_denominator as int)
                },
                Err(e) => {
                    &&& e == AmmError::MathOverflow
                    &&& (self.fee_denominator == 0 || amount * self.fee_numerator > u128::MAX)
                },
            },
    {
        match amount.checked_mul(self.fee_numerator as u128) {
            Some(product) => match product.checked_div(self.fee_denominator as u128) {
                Some(fee) => Ok(fee),
                None => Err(AmmError::MathOverflow),
            },
            None => Err(AmmError::MathOverflow),
        }
    }
}

/// Under a fee ratio in `[0, 1)` the fee never exceeds the amount, and is
/// strictly below any positive amount.
pub proof fn lemma_fee_below_amount(amount: int, numerator: int, denominator: int)
    requires
        0 <= amount,
        0 <= numerator < denominator,
    ensures
        0 <= fee_of(amount, numerator, denominator) <= amount,
        amount > 0 ==> fee_of(amount, numerator, denominator) < amount,
{
    assert(0 <= amount * numerator <= amount * denominator) by (nonlinear_arith)
        requires 0 <= amount, 0 <= numerator < denominator;
    assert(amount > 0 ==> amount * numerator < amount * denominator) by (nonlinear_arith)
        requires 0 <= amount, 0 <= numerator < denominator;
    vstd::arithmetic::div_mod::lemma_div_pos_is_pos(amount * numerator, denominator);
    vstd::arithmetic::div_mod::lemma_fundamental_div_mod(amount * numerator, denominator);
    vstd::arithmetic::div_mod::lemma_mod_bound(amount * numerator, denominator);
    let q = amount * numerator / denominator;
    assert(q <= amount && (amount > 0 ==> q < amount)) by (nonlinear_arith)
        requires
            denominator * q + (amount * numerator) % denominator == amount * numerator,
            0 <= (amount * numerator) % denominator,
            amount * numerator <= amount * denominator,
            amount > 0 ==> amount * numerator < amount * denominator,
            denominator > 0;
}

/// Under a fee ratio in `[0, 1)` the fee does not decrease as the amount grows.
pub proof fn lemma_fee_monotonic(smaller: int, larger: int, numerator: int, denominator: int)
    requires
        0 <= smaller <= larger,
        0 <= numerator < denominator,
    ensures
        fee_of(smaller, numerator, denominator) <= fee_of(larger, numerator, denominator),
{
    assert(smaller * numerator <= larger * numerator) by (nonlinear_arith)
        requires 0 <= smaller <= larger, 0 <= numerator;
    vstd::arithmetic::div_mod::lemma_div_is_ordered(smaller * numerator, larger * numerator, denominator);
}

impl Default for LiquidityPool {
    fn default() -> (r: LiquidityPool)
        ensures
            r.total_lp_tokens_issued == 0,
            r.fee_numerator == 0,
            r.fee_denominator == 0,
    {
        LiquidityPool { total_lp_tokens_issued: 0, fee_numerator: 0, fee_denominator: 0 }
    }
}

} // verus!
