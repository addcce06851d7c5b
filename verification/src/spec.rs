use vstd::prelude::*;

use crate::effects::{EffectView, PartyView};
use crate::errors::LiquidityPoolError;
use crate::math::{checked_mul_div, fits_i128};
use crate::types::{LP_FEE_BPS, MIN_AMOUNT, PROTOCOL_FEE_BPS, TOTAL_BPS};

verus! {

/// The pool's state, with accounts taken by identity.
#[verifier::ext_equal]
pub struct PoolView {
    pub admin: Option<Seq<u8>>,
    pub token: Option<Seq<u8>>,
    pub treasury: Option<Seq<u8>>,
    pub merchant_fund: Option<Seq<u8>>,
    pub creditline: Option<Seq<u8>>,
    pub paused: bool,
    pub reentrancy_locked: bool,
    pub total_shares: i128,
    pub total_liquidity: i128,
    pub locked_liquidity: i128,
    /// Every account's share balance (zero for accounts that never held any).
    pub lp_shares: Map<Seq<u8>, i128>,
    /// Sum of the balances recorded in the share ledger.
    pub lp_total: int,
}

/// The pool once the host has carried out an accepted request and the
/// reentrancy guard is released.
pub open spec fn released(p: PoolView) -> PoolView {
    PoolView { reentrancy_locked: false, ..p }
}

// ---------------------------------------------------------------------------
// Access control
// ---------------------------------------------------------------------------

/// Why `caller` may not act as administrator, if it may not.
pub open spec fn admin_refusal(p: PoolView, caller: Seq<u8>) -> Option<LiquidityPoolError> {
    match p.admin {
        None => Some(LiquidityPoolError::NotInitialized),
        Some(a) => if a == caller {
            None
        } else {
            Some(LiquidityPoolError::NotAdmin)
        },
    }
}

/// Why `caller` may not act as the credit line, if it may not.
pub open spec fn creditline_refusal(p: PoolView, caller: Seq<u8>) -> Option<LiquidityPoolError> {
    match p.creditline {
        None => Some(LiquidityPoolError::NotCreditLine),
        Some(c) => if c == caller {
            None
        } else {
            Some(LiquidityPoolError::NotCreditLine)
        },
    }
}

/// Why `caller` may not trigger an interest distribution, if it may not:
/// the administrator and the credit line may.
pub open spec fn distributor_refusal(p: PoolView, caller: Seq<u8>) -> Option<LiquidityPoolError> {
    match p.admin {
        None => Some(LiquidityPoolError::NotInitialized),
        Some(a) => if a == caller || p.creditline == Some(caller) {
            None
        } else {
            Some(LiquidityPoolError::NotCreditLine)
        },
    }
}

// ---------------------------------------------------------------------------
// Deposit
// ---------------------------------------------------------------------------

/// Shares issued for `amount` tokens: one per token into an empty pool
/// (no shares or no liquidity), otherwise `amount * total_shares /
/// total_liquidity` rounded toward zero; `None` on overflow.
pub open spec fn issued_shares(amount: i128, total_shares: i128, total_liquidity: i128) -> Option<i128> {
    if total_shares == 0 || total_liquidity == 0 {
        Some(amount)
    } else {
        checked_mul_div(amount, total_shares, total_liquidity)
    }
}

/// The shares that a successful deposit issues.
pub open spec fn deposit_shares(p: PoolView, amount: i128) -> i128 {
    match issued_shares(amount, p.total_shares, p.total_liquidity) {
        Some(s) => s,
        None => 0,
    }
}

/// Refusals of a deposit that come after the reentrancy guard is taken.
pub open spec fn deposit_plan_refusal(p: PoolView, provider: Seq<u8>, amount: i128) -> Option<
    LiquidityPoolError,
> {
    if p.token is None {
        Some(LiquidityPoolError::NotInitialized)
    } else {
        match issued_shares(amount, p.total_shares, p.total_liquidity) {
            None => Some(LiquidityPoolError::Overflow),
            Some(s) => if s <= 0 {
                Some(LiquidityPoolError::InvalidAmount)
            } else if !fits_i128(p.lp_shares[provider] + s) || !fits_i128(p.total_shares + s)
                || !fits_i128(p.total_liquidity + amount) {
                Some(LiquidityPoolError::Overflow)
            } else {
                None
            },
        }
    }
}

/// Why a deposit of `amount` tokens by `provider` is refused, if it is.
pub open spec fn deposit_refusal(p: PoolView, provider: Seq<u8>, amount: i128) -> Option<
    LiquidityPoolError,
> {
    if p.paused {
        Some(LiquidityPoolError::ContractPaused)
    } else if amount < MIN_AMOUNT {
        Some(LiquidityPoolError::InvalidAmount)
    } else if p.reentrancy_locked {
        Some(LiquidityPoolError::ReentrancyDetected)
    } else {
        deposit_plan_refusal(p, provider, amount)
    }
}

/// The pool after `provider` deposited `amount` tokens for `shares`.
pub open spec fn after_deposit(p: PoolView, provider: Seq<u8>, amount: i128, shares: i128) -> PoolView {
    PoolView {
        reentrancy_locked: true,
        total_shares: (p.total_shares + shares) as i128,
        total_liquidity: (p.total_liquidity + amount) as i128,
        lp_shares: p.lp_shares.insert(provider, (p.lp_shares[provider] + shares) as i128),
        lp_total: p.lp_total + shares,
        ..p
    }
}

/// What a deposit asks of the host: pull the tokens in, then announce it.
pub open spec fn deposit_effects(provider: Seq<u8>, amount: i128, shares: i128) -> Seq<EffectView> {
    seq![
        EffectView::Transfer {
            from: PartyView::External(provider),
            to: PartyView::Pool,
            amount,
        },
        EffectView::LiquidityDeposited { provider, amount, shares },
    ]
}

// ---------------------------------------------------------------------------
// Withdrawal
// ---------------------------------------------------------------------------

/// Tokens that `shares` are worth: `shares * total_liquidity / total_shares`
/// rounded toward zero; `None` on overflow or when no shares exist.
pub open spec fn share_value(shares: i128, total_liquidity: i128, total_shares: i128) -> Option<i128> {
    checked_mul_div(shares, total_liquidity, total_shares)
}

/// The tokens that a successful withdrawal of `shares` pays out.
pub open spec fn withdrawal_amount(p: PoolView, shares: i128) -> i128 {
    match share_value(shares, p.total_liquidity, p.total_shares) {
        Some(a) => a,
        None => 0,
    }
}

/// Refusals of a withdrawal that come after the reentrancy guard is taken.
pub open spec fn withdraw_plan_refusal(p: PoolView, provider: Seq<u8>, shares: i128) -> Option<
    LiquidityPoolError,
> {
    if p.lp_shares[provider] < shares {
        Some(LiquidityPoolError::InsufficientShares)
    } else if p.total_shares == 0 {
        Some(LiquidityPoolError::ZeroTotalShares)
    } else if !fits_i128(p.total_liquidity - p.locked_liquidity) {
        Some(LiquidityPoolError::Underflow)
    } else {
        match share_value(shares, p.total_liquidity, p.total_shares) {
            None => Some(LiquidityPoolError::Overflow),
            Some(a) => if a > p.total_liquidity - p.locked_liquidity {
                Some(LiquidityPoolError::InsufficientLiquidity)
            } else if !fits_i128(p.lp_shares[provider] - shares) || !fits_i128(
                p.total_shares - shares,
            ) || !fits_i128(p.total_liquidity - a) {
                Some(LiquidityPoolError::Underflow)
            } else if p.token is None {
                Some(LiquidityPoolError::NotInitialized)
            } else {
                None
            },
        }
    }
}

/// Why a withdrawal of `shares` by `provider` is refused, if it is.
pub open spec fn withdraw_refusal(p: PoolView, provider: Seq<u8>, shares: i128) -> Option<
    LiquidityPoolError,
> {
    if p.paused {
        Some(LiquidityPoolError::ContractPaused)
    } else if shares <= 0 {
        Some(LiquidityPoolError::InvalidAmount)
    } else if p.reentrancy_locked {
        Some(LiquidityPoolError::ReentrancyDetected)
    } else {
        withdraw_plan_refusal(p, provider, shares)
    }
}

/// The pool after `provider` burned `shares` for `amount` tokens.
pub open spec fn after_withdraw(p: PoolView, provider: Seq<u8>, shares: i128, amount: i128) -> PoolView {
    PoolView {
        reentrancy_locked: true,
        total_shares: (p.total_shares - shares) as i128,
        total_liquidity: (p.total_liquidity - amount) as i128,
        lp_shares: p.lp_shares.insert(provider, (p.lp_shares[provider] - shares) as i128),
        lp_total: p.lp_total - shares,
        ..p
    }
}

/// What a withdrawal asks of the host: announce it, then pay out.
pub open spec fn withdraw_effects(provider: Seq<u8>, shares: i128, amount: i128) -> Seq<EffectView> {
    seq![
        EffectView::LiquidityWithdrawn { provider, shares, amount },
        EffectView::Transfer {
            from: PartyView::Pool,
            to: PartyView::External(provider),
            amount,
        },
    ]
}

// ---------------------------------------------------------------------------
// Loans
// ---------------------------------------------------------------------------

/// Refusals of a loan that come after the reentrancy guard is taken.
pub open spec fn fund_loan_plan_refusal(p: PoolView, amount: i128) -> Option<LiquidityPoolError> {
    if !fits_i128(p.total_liquidity - p.locked_liquidity) {
        Some(LiquidityPoolError::Underflow)
    } else if amount > p.total_liquidity - p.locked_liquidity {
        Some(LiquidityPoolError::InsufficientLiquidity)
    } else if !fits_i128(p.locked_liquidity + amount) {
        Some(LiquidityPoolError::Overflow)
    } else if p.token is None {
        Some(LiquidityPoolError::NotInitialized)
    } else {
        None
    }
}

/// Why funding a loan of `amount` is refused, if it is.
pub open spec fn fund_loan_refusal(p: PoolView, creditline: Seq<u8>, amount: i128) -> Option<
    LiquidityPoolError,
> {
    if creditline_refusal(p, creditline) is Some {
        creditline_refusal(p, creditline)
    } else if p.paused {
        Some(LiquidityPoolError::ContractPaused)
    } else if amount <= 0 {
        Some(LiquidityPoolError::InvalidAmount)
    } else if p.reentrancy_locked {
        Some(LiquidityPoolError::ReentrancyDetected)
    } else {
        fund_loan_plan_refusal(p, amount)
    }
}

/// The pool after lending `amount`: it is locked, total liquidity stays.
pub open spec fn after_fund_loan(p: PoolView, amount: i128) -> PoolView {
    PoolView {
        reentrancy_locked: true,
        locked_liquidity: (p.locked_liquidity + amount) as i128,
        ..p
    }
}

/// What funding a loan asks of the host: pay the merchant, then announce it.
pub open spec fn fund_loan_effects(creditline: Seq<u8>, merchant: Seq<u8>, amount: i128) -> Seq<
    EffectView,
> {
    seq![
        EffectView::Transfer {
            from: PartyView::Pool,
            to: PartyView::External(merchant),
            amount,
        },
        EffectView::LoanFunded { creditline, amount },
    ]
}

// ---------------------------------------------------------------------------
// Interest distribution
// ---------------------------------------------------------------------------

/// The providers' portion of `interest`: 85 %, rounded toward zero.
pub open spec fn lp_portion(interest: i128) -> Option<i128> {
    checked_mul_div(interest, LP_FEE_BPS, TOTAL_BPS)
}

/// The treasury's portion of `interest`: 10 %, rounded toward zero.
pub open spec fn protocol_portion(interest: i128) -> Option<i128> {
    checked_mul_div(interest, PROTOCOL_FEE_BPS, TOTAL_BPS)
}

/// The providers' portion of a distribution that goes through.
pub open spec fn lp_amount(interest: i128) -> i128 {
    match lp_portion(interest) {
        Some(v) => v,
        None => 0,
    }
}

/// The treasury's portion of a distribution that goes through.
pub open spec fn protocol_amount(interest: i128) -> i128 {
    match protocol_portion(interest) {
        Some(v) => v,
        None => 0,
    }
}

/// The merchant fund's portion: whatever the other two portions leave.
pub open spec fn merchant_amount(interest: i128) -> int {
    interest - lp_amount(interest) - protocol_amount(interest)
}

/// Why distributing `interest` is refused, if it is.
pub open spec fn distribution_refusal(p: PoolView, interest: i128) -> Option<LiquidityPoolError> {
    if interest <= 0 {
        Some(LiquidityPoolError::InvalidAmount)
    } else if lp_portion(interest) is None || protocol_portion(interest) is None {
        Some(LiquidityPoolError::Overflow)
    } else if !fits_i128(interest - lp_amount(interest)) || !fits_i128(
        merchant_amount(interest),
    ) {
        Some(LiquidityPoolError::Underflow)
    } else if p.token is None {
        Some(LiquidityPoolError::NotInitialized)
    } else if !fits_i128(p.total_liquidity + lp_amount(interest)) {
        Some(LiquidityPoolError::Overflow)
    } else {
        None
    }
}

/// A transfer of `amount` from the pool to `to`, when `to` is configured and
/// `amount` is positive; nothing otherwise.
pub open spec fn payout(to: Option<Seq<u8>>, amount: int) -> Seq<EffectView> {
    match to {
        Some(a) => if amount > 0 {
            seq![
                EffectView::Transfer {
                    from: PartyView::Pool,
                    to: PartyView::External(a),
                    amount: amount as i128,
                },
            ]
        } else {
            Seq::empty()
        },
        None => Seq::empty(),
    }
}

/// What distributing `interest` asks of the host: pay the treasury and the
/// merchant fund their portions (where configured), then announce the split.
/// The providers' portion never leaves the pool.
pub open spec fn distribution_effects(p: PoolView, interest: i128) -> Seq<EffectView> {
    payout(p.treasury, protocol_amount(interest) as int) + payout(
        p.merchant_fund,
        merchant_amount(interest),
    ) + seq![
        EffectView::InterestDistributed {
            total: interest,
            lp_amount: lp_amount(interest),
            protocol_amount: protocol_amount(interest),
            merchant_amount: merchant_amount(interest) as i128,
        },
    ]
}

/// The pool after distributing `interest`: the providers' portion joins the
/// pool.
pub open spec fn after_distribution(p: PoolView, interest: i128) -> PoolView {
    PoolView {
        reentrancy_locked: true,
        total_liquidity: (p.total_liquidity + lp_amount(interest)) as i128,
        ..p
    }
}

/// Why a distribution of `amount` requested by `caller` is refused, if it is.
pub open spec fn distribute_refusal(p: PoolView, caller: Seq<u8>, amount: i128) -> Option<
    LiquidityPoolError,
> {
    if p.paused {
        Some(LiquidityPoolError::ContractPaused)
    } else if distributor_refusal(p, caller) is Some {
        distributor_refusal(p, caller)
    } else if p.reentrancy_locked {
        Some(LiquidityPoolError::ReentrancyDetected)
    } else {
        distribution_refusal(p, amount)
    }
}

// ---------------------------------------------------------------------------
// Repayments and guarantees
// ---------------------------------------------------------------------------

/// Refusals of a repayment that come after the reentrancy guard is taken.
pub open spec fn repayment_plan_refusal(p: PoolView, principal: i128, interest: i128) -> Option<
    LiquidityPoolError,
> {
    if !fits_i128(p.locked_liquidity - principal) {
        Some(LiquidityPoolError::Underflow)
    } else if p.token is None {
        Some(LiquidityPoolError::NotInitialized)
    } else if interest > 0 {
        distribution_refusal(p, interest)
    } else {
        None
    }
}

/// Why a repayment of `principal` plus `interest` is refused, if it is.
pub open spec fn repayment_refusal(
    p: PoolView,
    creditline: Seq<u8>,
    principal: i128,
    interest: i128,
) -> Option<LiquidityPoolError> {
    if creditline_refusal(p, creditline) is Some {
        creditline_refusal(p, creditline)
    } else if p.paused {
        Some(LiquidityPoolError::ContractPaused)
    } else if principal < 0 || interest < 0 {
        Some(LiquidityPoolError::InvalidAmount)
    } else if !fits_i128(principal + interest) {
        Some(LiquidityPoolError::Overflow)
    } else if principal + interest <= 0 {
        Some(LiquidityPoolError::InvalidAmount)
    } else if p.reentrancy_locked {
        Some(LiquidityPoolError::ReentrancyDetected)
    } else {
        repayment_plan_refusal(p, principal, interest)
    }
}

/// The pool after a repayment went through: the principal is unlocked and
/// the providers' portion of the interest joins the pool.
pub open spec fn after_repayment(p: PoolView, principal: i128, interest: i128) -> PoolView {
    PoolView {
        reentrancy_locked: true,
        locked_liquidity: (p.locked_liquidity - principal) as i128,
        total_liquidity: if interest > 0 {
            (p.total_liquidity + lp_amount(interest)) as i128
        } else {
            p.total_liquidity
        },
        ..p
    }
}

/// What a repayment asks of the host: pull principal and interest in,
/// announce it, then distribute the interest.
pub open spec fn repayment_effects(
    p: PoolView,
    creditline: Seq<u8>,
    principal: i128,
    interest: i128,
) -> Seq<EffectView> {
    seq![
        EffectView::Transfer {
            from: PartyView::External(creditline),
            to: PartyView::Pool,
            amount: (principal + interest) as i128,
        },
        EffectView::RepaymentReceived { creditline, principal, interest },
    ] + if interest > 0 {
        distribution_effects(p, interest)
    } else {
        Seq::empty()
    }
}

/// What a guarantee of `amount` recovers: at most what is locked.
pub open spec fn recovered_amount(amount: i128, locked: i128) -> i128 {
    if locked < amount {
        locked
    } else {
        amount
    }
}

/// Refusals of a guarantee that come after the reentrancy guard is taken.
pub open spec fn guarantee_plan_refusal(p: PoolView, amount: i128) -> Option<LiquidityPoolError> {
    let r = recovered_amount(amount, p.locked_liquidity);
    if !fits_i128(p.locked_liquidity - r) {
        Some(LiquidityPoolError::Underflow)
    } else if !fits_i128(p.total_liquidity + r) {
        Some(LiquidityPoolError::Overflow)
    } else if p.token is None {
        Some(LiquidityPoolError::NotInitialized)
    } else {
        None
    }
}

/// Why receiving a guarantee of `amount` is refused, if it is.
pub open spec fn guarantee_refusal(p: PoolView, creditline: Seq<u8>, amount: i128) -> Option<
    LiquidityPoolError,
> {
    if creditline_refusal(p, creditline) is Some {
        creditline_refusal(p, creditline)
    } else if p.paused {
        Some(LiquidityPoolError::ContractPaused)
    } else if amount <= 0 {
        Some(LiquidityPoolError::InvalidAmount)
    } else if p.reentrancy_locked {
        Some(LiquidityPoolError::ReentrancyDetected)
    } else {
        guarantee_plan_refusal(p, amount)
    }
}

/// The pool after recovering `r` tokens: they leave the locked amount and
/// join the pool.
pub open spec fn after_guarantee(p: PoolView, r: i128) -> PoolView {
    PoolView {
        reentrancy_locked: true,
        locked_liquidity: (p.locked_liquidity - r) as i128,
        total_liquidity: (p.total_liquidity + r) as i128,
        ..p
    }
}

/// What a guarantee asks of the host: pull in the recovered tokens, then
/// announce it.
pub open spec fn guarantee_effects(creditline: Seq<u8>, r: i128) -> Seq<EffectView> {
    seq![
        EffectView::Transfer {
            from: PartyView::External(creditline),
            to: PartyView::Pool,
            amount: r,
        },
        EffectView::GuaranteeReceived { creditline, amount: r },
    ]
}

// ---------------------------------------------------------------------------
// Queries
// ---------------------------------------------------------------------------

/// Value of one share in basis points: `total_liquidity * 10000 /
/// total_shares`, or exactly one token when no shares exist or the product
/// overflows.
pub open spec fn share_price_of(total_liquidity: i128, total_shares: i128) -> i128 {
    if total_shares == 0 {
        TOTAL_BPS
    } else {
        match checked_mul_div(total_liquidity, TOTAL_BPS, total_shares) {
            Some(v) => v,
            None => TOTAL_BPS,
        }
    }
}

/// What `shares` would withdraw now, ignoring locks: zero when no shares
/// exist or the product overflows.
pub open spec fn quoted_withdrawal(p: PoolView, shares: i128) -> i128 {
    if p.total_shares == 0 {
        0
    } else {
        match share_value(shares, p.total_liquidity, p.total_shares) {
            Some(v) => v,
            None => 0,
        }
    }
}

} // verus!
