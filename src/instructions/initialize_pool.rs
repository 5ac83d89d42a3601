use vstd::prelude::*;

use crate::errors::AmmError;
use crate::state::LiquidityPool;

verus! {

/// What initialization reads and writes: the pool record being created.
#[derive(Clone, Copy, Debug, PartialEq, Eq, Structural)]
pub struct InitializePool {
    pub liquidity_pool: LiquidityPool,
}

/// A fee ratio is accepted when it is a fraction in `[0, 1)`.
pub open spec fn valid_fee(fee_numerator: u64, fee_denominator: u64) -> bool {
    fee_denominator > 0 && fee_numerator < fee_denominator
}

/// Sets up the pool record with the given fee ratio and no LP tokens issued.
pub fn process(ctx: &mut InitializePool, fee_numerator: u64, fee_denominator: u64) -> (r: Result<(), AmmError>)
    ensures
        r is Ok <==> valid_fee(fee_numerator, fee_denominator),
        r is Err ==> r == Err::<(), AmmError>(AmmError::InvalidFeeParameters) && *final(ctx) == *old(ctx),
        r is Ok ==> final(ctx).liquidity_pool == (LiquidityPool {
            total_lp_tokens_issued: 0,
            fee_numerator,
            fee_denominator,
        }),
        r is Ok ==> final(ctx).liquidity_pool.wf(),
{
    if fee_denominator == 0 {
        return Err(AmmError::InvalidFeeParameters);
    }
    if fee_numerator >= fee_denominator {
        return Err(AmmError::InvalidFeeParameters);
    }
    ctx.liquidity_pool.fee_numerator = fee_numerator;
    ctx.liquidity_pool.fee_denominator = fee_denominator;
    ctx.liquidity_pool.total_lp_tokens_issued = 0;
    Ok(())
}

} // verus!
