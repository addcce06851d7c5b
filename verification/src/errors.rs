use vstd::prelude::*;

verus! {

/// Why the pool refused a request.
#[derive(Debug, Clone, Copy, PartialEq, Eq, Structural)]
pub enum LiquidityPoolError {
    /// The caller is not the administrator.
    NotAdmin,
    /// The pool has already been initialized.
    AlreadyInitialized,
    /// The pool has not been initialized yet.
    NotInitialized,
    /// An amount, share count or repayment is out of the accepted range.
    InvalidAmount,
    /// The provider holds fewer shares than it asked to burn.
    InsufficientShares,
    /// Not enough unlocked liquidity is left in the pool.
    InsufficientLiquidity,
    /// A sum or product left the range of `i128`.
    Overflow,
    /// A difference left the range of `i128`.
    Underflow,
    /// The caller is not the registered credit line.
    NotCreditLine,
    /// No shares are outstanding.
    ZeroTotalShares,
    /// A request arrived while another one was still being carried out.
    ReentrancyDetected,
    /// The pool is paused.
    ContractPaused,
}

/// The numeric code under which a refusal is reported on chain.
pub open spec fn error_code(e: LiquidityPoolError) -> u32 {
    match e {
        LiquidityPoolError::NotAdmin => 1,
        LiquidityPoolError::AlreadyInitialized => 2,
        LiquidityPoolError::NotInitialized => 3,
        LiquidityPoolError::InvalidAmount => 4,
        LiquidityPoolError::InsufficientShares => 5,
        LiquidityPoolError::InsufficientLiquidity => 6,
        LiquidityPoolError::Overflow => 7,
        LiquidityPoolError::Underflow => 8,
        LiquidityPoolError::NotCreditLine => 9,
        LiquidityPoolError::ZeroTotalShares => 10,
        LiquidityPoolError::ReentrancyDetected => 11,
        LiquidityPoolError::ContractPaused => 12,
    }
}

impl LiquidityPoolError {
    /// The numeric code under which this refusal is reported on chain.
    pub fn code(&self) -> (c: u32)
        ensures
            c == error_code(*self),
    {
        match self {
            LiquidityPoolError::NotAdmin => 1,
            LiquidityPoolError::AlreadyInitialized => 2,
            LiquidityPoolError::NotInitialized => 3,
            LiquidityPoolError::InvalidAmount => 4,
            LiquidityPoolError::InsufficientShares => 5,
            LiquidityPoolError::InsufficientLiquidity => 6,
            LiquidityPoolError::Overflow => 7,
            LiquidityPoolError::Underflow => 8,
            LiquidityPoolError::NotCreditLine => 9,
            LiquidityPoolError::ZeroTotalShares => 10,
            LiquidityPoolError::ReentrancyDetected => 11,
            LiquidityPoolError::ContractPaused => 12,
        }
    }
}

} // verus!
