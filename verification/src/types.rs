use vstd::prelude::*;

verus! {

/// Smallest amount that a deposit may carry.
pub const MIN_AMOUNT: i128 = 1;

/// Denominator of every fee ratio: one whole in basis points.
pub const TOTAL_BPS: i128 = 10000;

/// Portion of interest that stays in the pool for the liquidity providers.
pub const LP_FEE_BPS: i128 = 8500;

/// Portion of interest that goes to the treasury.
pub const PROTOCOL_FEE_BPS: i128 = 1000;

/// Portion of interest meant for the merchant incentive fund; the fund in
/// fact receives what remains after the other two portions.
pub const MERCHANT_FEE_BPS: i128 = 500;

/// A snapshot of the pool's accounting.
#[derive(Debug, Clone, Copy, PartialEq, Eq, Structural)]
pub struct PoolStats {
    pub total_liquidity: i128,
    pub locked_liquidity: i128,
    pub available_liquidity: i128,
    pub total_shares: i128,
    /// Value of one share in basis points of a token.
    pub share_price: i128,
}

} // verus!
