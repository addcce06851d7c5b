//! Accounting core of a lending liquidity pool: liquidity providers deposit
//! tokens for shares, a credit line borrows from the pool and pays it back
//! with interest, and interest is split between the providers, a treasury and
//! a merchant incentive fund.
//!
//! Every entry point is a verified state transition on
//! [`LiquidityPoolContract`]. It either refuses the request with a
//! [`LiquidityPoolError`] and leaves the pool untouched, or updates the pool
//! and hands back the token transfers and events that the host must carry out.

mod access;
mod account;
mod effects;
mod errors;
pub mod laws;
mod ledger;
mod math;
mod pool;
pub mod spec;
mod types;

pub use access::{require_admin, require_creditline};
pub use account::Account;
pub use effects::{Effect, Party, Receipt};
pub use errors::LiquidityPoolError;
pub use ledger::ShareLedger;
pub use math::{mul_div, saturating_sub};
pub use pool::LiquidityPoolContract;
pub use types::{PoolStats, LP_FEE_BPS, MERCHANT_FEE_BPS, MIN_AMOUNT, PROTOCOL_FEE_BPS, TOTAL_BPS};
