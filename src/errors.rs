use vstd::prelude::*;

verus! {

/// Why an operation on the pool was refused.
#[derive(Clone, Copy, Debug, PartialEq, Eq, Structural)]
pub enum AmmError {
    /// The caller holds less than it offers, or less than the pool requires.
    InsufficientBalance,
    /// A deposit would mint no LP tokens.
    InvalidLpTokenAmount,
    /// A withdrawal burns more LP tokens than were ever issued.
    ExcessiveBurnAmount,
    /// A swap would pay out less than the caller's minimum.
    SlippageExceeded,
    /// The fee ratio is not a fraction in `[0, 1)`.
    InvalidFeeParameters,
    /// An arithmetic step overflowed or divided by zero.
    MathOverflow,
}

impl AmmError {
    /// The message shown for this error.
    pub fn message(&self) -> (r: String) {
        match self {
            AmmError::InsufficientBalance => "Insufficient balance in user's account for this operation".to_string(),
            AmmError::InvalidLpTokenAmount => "Calculated LP token mint amount is zero or negative".to_string(),
            AmmError::ExcessiveBurnAmount => "Attempting to burn more LP tokens than available".to_string(),
            AmmError::SlippageExceeded => "Output amount is less than the specified minimum".to_string(),
            AmmError::InvalidFeeParameters => "Invalid fee configuration".to_string(),
            AmmError::MathOverflow => "Division by zero in calculations".to_string(),
        }
    }
}

} // verus!
