use vstd::prelude::*;

verus! {

/// The ways a launch operation can be refused.
#[derive(Clone, Copy, Debug, PartialEq, Eq, Structural)]
pub enum ErrorCode {
    FeeTooHigh,
    MathOverflow,
    SlippageExceeded,
    InsufficientLiquidity,
    BadMint,
    BadVault,
    ZeroAmount,
    TooSmall,
    AlreadyGraduated,
}

} // verus!
