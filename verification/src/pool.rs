use vstd::prelude::*;

use crate::access::{require_admin, require_creditline};
use crate::account::{duplicate_opt, opt_account_view, Account};
use crate::effects::{effects_view, Effect, Party, Receipt};
use crate::errors::LiquidityPoolError;
use crate::ledger::ShareLedger;
use crate::math::{mul_div, saturating_diff, saturating_sub};
use crate::spec::{PoolView, released, after_fund_loan, after_distribution,admin_refusal,creditline_refusal,distributor_refusal,issued_shares,deposit_shares,deposit_plan_refusal,deposit_refusal,after_deposit,deposit_effects,share_value,withdrawal_amount,withdraw_plan_refusal,withdraw_refusal,after_withdraw,withdraw_effects,fund_loan_plan_refusal,fund_loan_refusal,fund_loan_effects,lp_portion,protocol_portion,lp_amount,protocol_amount,merchant_amount,distribution_refusal,payout,distribution_effects,distribute_refusal,repayment_plan_refusal,repayment_refusal,after_repayment,repayment_effects,recovered_amount,guarantee_plan_refusal,guarantee_refusal,after_guarantee,guarantee_effects,share_price_of,quoted_withdrawal};
use crate::types::{PoolStats, LP_FEE_BPS, MIN_AMOUNT, PROTOCOL_FEE_BPS, TOTAL_BPS};

verus! {

/// The liquidity pool: its configuration, its accounting and every
/// provider's share balance.
#[derive(Debug)]
pub struct LiquidityPoolContract {
    pub admin: Option<Account>,
    pub token: Option<Account>,
    pub treasury: Option<Account>,
    pub merchant_fund: Option<Account>,
    pub creditline: Option<Account>,
    pub paused: bool,
    pub reentrancy_locked: bool,
    pub total_shares: i128,
    pub total_liquidity: i128,
    pub locked_liquidity: i128,
    pub lp_shares: ShareLedger,
}

impl View for LiquidityPoolContract {
    type V = PoolView;

    open spec fn view(&self) -> PoolView {
        PoolView {
            admin: opt_account_view(self.admin),
            token: opt_account_view(self.token),
            treasury: opt_account_view(self.treasury),
            merchant_fund: opt_account_view(self.merchant_fund),
            creditline: opt_account_view(self.creditline),
            paused: self.paused,
            reentrancy_locked: self.reentrancy_locked,
            total_shares: self.total_shares,
            total_liquidity: self.total_liquidity,
            locked_liquidity: self.locked_liquidity,
            lp_shares: self.lp_shares@,
            lp_total: self.lp_shares.total(),
        }
    }
}

impl LiquidityPoolContract {
    /// A pool that has not been initialized: no configuration, no liquidity,
    /// no shares.
    pub fn new() -> (pool: LiquidityPoolContract)
        ensures
            pool@ == (PoolView {
                admin: None,
                token: None,
                treasury: None,
                merchant_fund: None,
                creditline: None,
                paused: false,
                reentrancy_locked: false,
                total_shares: 0,
                total_liquidity: 0,
                locked_liquidity: 0,
                lp_shares: Map::total(|k: Seq<u8>| 0i128),
                lp_total: 0,
            }),
    {
        LiquidityPoolContract {
            admin: None,
            token: None,
            treasury: None,
            merchant_fund: None,
            creditline: None,
            paused: false,
            reentrancy_locked: false,
            total_shares: 0,
            total_liquidity: 0,
            locked_liquidity: 0,
            lp_shares: ShareLedger::new(),
        }
    }

    // -----------------------------------------------------------------------
    // Initialization
    // -----------------------------------------------------------------------

    /// Configures the pool. Only possible once: refused with
    /// `AlreadyInitialized` when an administrator is already set.
    pub fn initialize(
        &mut self,
        admin: Account,
        token: Account,
        treasury: Account,
        merchant_fund: Account,
    ) -> (r: Result<(), LiquidityPoolError>)
        ensures
            r is Err <==> old(self)@.admin is Some,
            r matches Err(e) ==> e == LiquidityPoolError::AlreadyInitialized && *final(self)
                == *old(self),
            r is Ok ==> final(self)@ == (PoolView {
                admin: Some(admin@),
                token: Some(token@),
                treasury: Some(treasury@),
                merchant_fund: Some(merchant_fund@),
                ..old(self)@
            }),
    {
        if self.admin.is_some() {
            return Err(LiquidityPoolError::AlreadyInitialized);
        }
        self.admin = Some(admin);
        self.token = Some(token);
        self.treasury = Some(treasury);
        self.merchant_fund = Some(merchant_fund);
        Ok(())
    }

    // -----------------------------------------------------------------------
    // Admin setters
    // -----------------------------------------------------------------------

    /// Registers the credit line; administrator only.
    pub fn set_creditline(&mut self, admin: &Account, creditline: Account) -> (r: Result<
        (),
        LiquidityPoolError,
    >)
        ensures
            r is Ok <==> admin_refusal(old(self)@, admin@) is None,
            r matches Err(e) ==> admin_refusal(old(self)@, admin@) == Some(e) && *final(self)
                == *old(self),
            r is Ok ==> final(self)@ == (PoolView { creditline: Some(creditline@), ..old(self)@ }),
    {
        require_admin(self, admin)?;
        self.creditline = Some(creditline);
        Ok(())
    }

    /// Sets the address that receives the protocol fee; administrator only.
    pub fn set_treasury(&mut self, admin: &Account, treasury: Account) -> (r: Result<
        (),
        LiquidityPoolError,
    >)
        ensures
            r is Ok <==> admin_refusal(old(self)@, admin@) is None,
            r matches Err(e) ==> admin_refusal(old(self)@, admin@) == Some(e) && *final(self)
                == *old(self),
            r is Ok ==> final(self)@ == (PoolView { treasury: Some(treasury@), ..old(self)@ }),
    {
        require_admin(self, admin)?;
        self.treasury = Some(treasury);
        Ok(())
    }

    /// Sets the address that receives the merchant incentive; administrator
    /// only.
    pub fn set_merchant_fund(&mut self, admin: &Account, merchant_fund: Account) -> (r: Result<
        (),
        LiquidityPoolError,
    >)
        ensures
            r is Ok <==> admin_refusal(old(self)@, admin@) is None,
            r matches Err(e) ==> admin_refusal(old(self)@, admin@) == Some(e) && *final(self)
                == *old(self),
            r is Ok ==> final(self)@ == (PoolView {
                merchant_fund: Some(merchant_fund@),
                ..old(self)@
            }),
    {
        require_admin(self, admin)?;
        self.merchant_fund = Some(merchant_fund);
        Ok(())
    }

    /// Hands administration to `new_admin`; administrator only.
    pub fn set_admin(&mut self, admin: &Account, new_admin: Account) -> (r: Result<
        (),
        LiquidityPoolError,
    >)
        ensures
            r is Ok <==> admin_refusal(old(self)@, admin@) is None,
            r matches Err(e) ==> admin_refusal(old(self)@, admin@) == Some(e) && *final(self)
                == *old(self),
            r is Ok ==> final(self)@ == (PoolView { admin: Some(new_admin@), ..old(self)@ }),
    {
        require_admin(self, admin)?;
        self.admin = Some(new_admin);
        Ok(())
    }

    /// The administrator; `NotInitialized` before initialization.
    pub fn get_admin(&self) -> (r: Result<Account, LiquidityPoolError>)
        ensures
            r is Ok <==> self@.admin is Some,
            r matches Ok(a) ==> self@.admin == Some(a@),
            r matches Err(e) ==> e == LiquidityPoolError::NotInitialized,
    {
        match &self.admin {
            Some(a) => Ok(a.duplicate()),
            None => Err(LiquidityPoolError::NotInitialized),
        }
    }

    /// Stops deposits, withdrawals, loans, repayments, guarantees and
    /// distributions; administrator only.
    pub fn pause(&mut self, admin: &Account) -> (r: Result<(), LiquidityPoolError>)
        ensures
            r is Ok <==> admin_refusal(old(self)@, admin@) is None,
            r matches Err(e) ==> admin_refusal(old(self)@, admin@) == Some(e) && *final(self)
                == *old(self),
            r is Ok ==> final(self)@ == (PoolView { paused: true, ..old(self)@ }),
    {
        require_admin(self, admin)?;
        self.paused = true;
        Ok(())
    }

    /// Lifts a pause; administrator only.
    pub fn unpause(&mut self, admin: &Account) -> (r: Result<(), LiquidityPoolError>)
        ensures
            r is Ok <==> admin_refusal(old(self)@, admin@) is None,
            r matches Err(e) ==> admin_refusal(old(self)@, admin@) == Some(e) && *final(self)
                == *old(self),
            r is Ok ==> final(self)@ == (PoolView { paused: false, ..old(self)@ }),
    {
        require_admin(self, admin)?;
        self.paused = false;
        Ok(())
    }

    /// Whether the pool is paused.
    pub fn is_paused(&self) -> (r: bool)
        ensures
            r == self@.paused,
    {
        self.paused
    }

    // -----------------------------------------------------------------------
    // Configuration queries
    // -----------------------------------------------------------------------

    /// The pool's token; `NotInitialized` before initialization.
    pub fn get_token(&self) -> (r: Result<Account, LiquidityPoolError>)
        ensures
            r is Ok <==> self@.token is Some,
            r matches Ok(a) ==> self@.token == Some(a@),
            r matches Err(e) ==> e == LiquidityPoolError::NotInitialized,
    {
        match &self.token {
            Some(a) => Ok(a.duplicate()),
            None => Err(LiquidityPoolError::NotInitialized),
        }
    }

    /// The treasury, if one is configured.
    pub fn get_treasury(&self) -> (r: Option<Account>)
        ensures
            opt_account_view(r) == self@.treasury,
    {
        duplicate_opt(&self.treasury)
    }

    /// The merchant fund, if one is configured.
    pub fn get_merchant_fund(&self) -> (r: Option<Account>)
        ensures
            opt_account_view(r) == self@.merchant_fund,
    {
        duplicate_opt(&self.merchant_fund)
    }

    /// The credit line, if one is registered.
    pub fn get_creditline(&self) -> (r: Option<Account>)
        ensures
            opt_account_view(r) == self@.creditline,
    {
        duplicate_opt(&self.creditline)
    }

    // -----------------------------------------------------------------------
    // Guards
    // -----------------------------------------------------------------------

    /// Refuses with `ContractPaused` while the pool is paused.
    pub fn require_not_paused(&self) -> (r: Result<(), LiquidityPoolError>)
        ensures
            r is Err <==> self@.paused,
            r matches Err(e) ==> e == LiquidityPoolError::ContractPaused,
    {
        if self.paused {
            Err(LiquidityPoolError::ContractPaused)
        } else {
            Ok(())
        }
    }

    /// Takes the reentrancy guard; refused with `ReentrancyDetected` while it
    /// is already held.
    pub fn enter_non_reentrant(&mut self) -> (r: Result<(), LiquidityPoolError>)
        ensures
            r is Err <==> old(self)@.reentrancy_locked,
            r matches Err(e) ==> e == LiquidityPoolError::ReentrancyDetected && *final(self)
                == *old(self),
            r is Ok ==> *final(self) == (LiquidityPoolContract {
                reentrancy_locked: true,
                ..*old(self)
            }),
            r is Ok ==> final(self)@ == (PoolView { reentrancy_locked: true, ..old(self)@ }),
    {
        if self.reentrancy_locked {
            return Err(LiquidityPoolError::ReentrancyDetected);
        }
        self.reentrancy_locked = true;
        Ok(())
    }

    /// Releases the reentrancy guard once the host has carried out the
    /// effects of an accepted request.
    pub fn exit_non_reentrant(&mut self)
        ensures
            *final(self) == (LiquidityPoolContract { reentrancy_locked: false, ..*old(self) }),
            final(self)@ == released(old(self)@),
    {
        self.reentrancy_locked = false;
    }
}

impl LiquidityPoolContract {
    // -----------------------------------------------------------------------
    // LP operations
    // -----------------------------------------------------------------------

    /// The accounting of a deposit, computed without touching the pool:
    /// shares issued, the provider's new balance, new total shares and new
    /// total liquidity.
    fn plan_deposit(&self, provider: &Account, amount: i128) -> (r: Result<
        (i128, i128, i128, i128),
        LiquidityPoolError,
    >)
        ensures
            r is Err <==> deposit_plan_refusal(self@, provider@, amount) is Some,
            r matches Err(e) ==> deposit_plan_refusal(self@, provider@, amount) == Some(e),
            r matches Ok((shares, balance, total_shares, total_liquidity)) ==> {
                &&& shares == deposit_shares(self@, amount)
                &&& balance == self@.lp_shares[provider@] + shares
                &&& total_shares == self@.total_shares + shares
                &&& total_liquidity == self@.total_liquidity + amount
            },
    {
        if self.token.is_none() {
            return Err(LiquidityPoolError::NotInitialized);
        }
        let shares = if self.total_shares == 0 || self.total_liquidity == 0 {
            amount
        } else {
            match mul_div(amount, self.total_shares, self.total_liquidity) {
                Some(v) => v,
                None => return Err(LiquidityPoolError::Overflow),
            }
        };
        if shares <= 0 {
            return Err(LiquidityPoolError::InvalidAmount);
        }
        let balance = match self.lp_shares.get(provider).checked_add(shares) {
            Some(v) => v,
            None => return Err(LiquidityPoolError::Overflow),
        };
        let total_shares = match self.total_shares.checked_add(shares) {
            Some(v) => v,
            None => return Err(LiquidityPoolError::Overflow),
        };
        let total_liquidity = match self.total_liquidity.checked_add(amount) {
            Some(v) => v,
            None => return Err(LiquidityPoolError::Overflow),
        };
        Ok((shares, balance, total_shares, total_liquidity))
    }

    /// Deposits `amount` tokens for `provider` and issues shares for them:
    /// one per token into an empty pool, otherwise in proportion to the
    /// pool's value (`amount * total_shares / total_liquidity`, rounded
    /// toward zero). Returns the shares issued; the host must then move the
    /// tokens into the pool.
    pub fn deposit(&mut self, provider: &Account, amount: i128) -> (r: Result<
        Receipt,
        LiquidityPoolError,
    >)
        ensures
            r is Err <==> deposit_refusal(old(self)@, provider@, amount) is Some,
            r matches Err(e) ==> deposit_refusal(old(self)@, provider@, amount) == Some(e)
                && *final(self) == *old(self),
            r matches Ok(out) ==> {
                &&& out.value == deposit_shares(old(self)@, amount)
                &&& final(self)@ == after_deposit(old(self)@, provider@, amount, out.value)
                &&& effects_view(out.effects@) == deposit_effects(provider@, amount, out.value)
            },
    {
        self.require_not_paused()?;
        if amount < MIN_AMOUNT {
            return Err(LiquidityPoolError::InvalidAmount);
        }
        self.enter_non_reentrant()?;
        match self.plan_deposit(provider, amount) {
            Err(e) => {
                self.exit_non_reentrant();
                Err(e)
            },
            Ok((shares, balance, total_shares, total_liquidity)) => {
                self.lp_shares.set(provider, balance);
                self.total_shares = total_shares;
                self.total_liquidity = total_liquidity;
                let effects = vec![
                    Effect::Transfer {
                        from: Party::External(provider.duplicate()),
                        to: Party::Pool,
                        amount,
                    },
                    Effect::LiquidityDeposited { provider: provider.duplicate(), amount, shares },
                ];
                assert(effects_view(effects@) =~= deposit_effects(provider@, amount, shares));
                Ok(Receipt { value: shares, effects })
            },
        }
    }
}

impl LiquidityPoolContract {
    /// The accounting of a withdrawal, computed without touching the pool:
    /// tokens paid out, the provider's new balance, new total shares and new
    /// total liquidity.
    fn plan_withdraw(&self, provider: &Account, shares: i128) -> (r: Result<
        (i128, i128, i128, i128),
        LiquidityPoolError,
    >)
        ensures
            r is Err <==> withdraw_plan_refusal(self@, provider@, shares) is Some,
            r matches Err(e) ==> withdraw_plan_refusal(self@, provider@, shares) == Some(e),
            r matches Ok((amount, balance, total_shares, total_liquidity)) ==> {
                &&& amount == withdrawal_amount(self@, shares)
                &&& balance == self@.lp_shares[provider@] - shares
                &&& total_shares == self@.total_shares - shares
                &&& total_liquidity == self@.total_liquidity - amount
            },
    {
        let provider_shares = self.lp_shares.get(provider);
        if provider_shares < shares {
            return Err(LiquidityPoolError::InsufficientShares);
        }
        if self.total_shares == 0 {
            return Err(LiquidityPoolError::ZeroTotalShares);
        }
        let available = match self.total_liquidity.checked_sub(self.locked_liquidity) {
            Some(v) => v,
            None => return Err(LiquidityPoolError::Underflow),
        };
        let amount = match mul_div(shares, self.total_liquidity, self.total_shares) {
            Some(v) => v,
            None => return Err(LiquidityPoolError::Overflow),
        };
        if amount > available {
            return Err(LiquidityPoolError::InsufficientLiquidity);
        }
        let balance = match provider_shares.checked_sub(shares) {
            Some(v) => v,
            None => return Err(LiquidityPoolError::Underflow),
        };
        let total_shares = match self.total_shares.checked_sub(shares) {
            Some(v) => v,
            None => return Err(LiquidityPoolError::Underflow),
        };
        let total_liquidity = match self.total_liquidity.checked_sub(amount) {
            Some(v) => v,
            None => return Err(LiquidityPoolError::Underflow),
        };
        if self.token.is_none() {
            return Err(LiquidityPoolError::NotInitialized);
        }
        Ok((amount, balance, total_shares, total_liquidity))
    }

    /// Burns `shares` of `provider` and pays out their proportional value,
    /// `shares * total_liquidity / total_shares` rounded toward zero, as
    /// long as that much liquidity is not locked in loans. Returns the
    /// tokens paid out; the host must then move them to the provider.
    pub fn withdraw(&mut self, provider: &Account, shares: i128) -> (r: Result<
        Receipt,
        LiquidityPoolError,
    >)
        ensures
            r is Err <==> withdraw_refusal(old(self)@, provider@, shares) is Some,
            r matches Err(e) ==> withdraw_refusal(old(self)@, provider@, shares) == Some(e)
                && *final(self) == *old(self),
            r matches Ok(out) ==> {
                &&& out.value == withdrawal_amount(old(self)@, shares)
                &&& final(self)@ == after_withdraw(old(self)@, provider@, shares, out.value)
                &&& effects_view(out.effects@) == withdraw_effects(provider@, shares, out.value)
            },
    {
        self.require_not_paused()?;
        if shares <= 0 {
            return Err(LiquidityPoolError::InvalidAmount);
        }
        self.enter_non_reentrant()?;
        match self.plan_withdraw(provider, shares) {
            Err(e) => {
                self.exit_non_reentrant();
                Err(e)
            },
            Ok((amount, balance, total_shares, total_liquidity)) => {
                self.lp_shares.set(provider, balance);
                self.total_shares = total_shares;
                self.total_liquidity = total_liquidity;
                let effects = vec![
                    Effect::LiquidityWithdrawn { provider: provider.duplicate(), shares, amount },
                    Effect::Transfer {
                        from: Party::Pool,
                        to: Party::External(provider.duplicate()),
                        amount,
                    },
                ];
                assert(effects_view(effects@) =~= withdraw_effects(provider@, shares, amount));
                Ok(Receipt { value: amount, effects })
            },
        }
    }

    // -----------------------------------------------------------------------
    // Credit line operations
    // -----------------------------------------------------------------------

    /// Lends `amount` tokens to `merchant` on behalf of the credit line: the
    /// amount becomes locked (total liquidity is unchanged) and the host must
    /// pay it to the merchant. Only the registered credit line may call.
    pub fn fund_loan(&mut self, creditline: &Account, merchant: &Account, amount: i128) -> (r:
        Result<Vec<Effect>, LiquidityPoolError>)
        ensures
            r is Err <==> fund_loan_refusal(old(self)@, creditline@, amount) is Some,
            r matches Err(e) ==> fund_loan_refusal(old(self)@, creditline@, amount) == Some(e)
                && *final(self) == *old(self),
            r matches Ok(effects) ==> {
                &&& final(self)@ == after_fund_loan(old(self)@, amount)
                &&& effects_view(effects@) == fund_loan_effects(creditline@, merchant@, amount)
            },
    {
        require_creditline(self, creditline)?;
        self.require_not_paused()?;
        if amount <= 0 {
            return Err(LiquidityPoolError::InvalidAmount);
        }
        if self.reentrancy_locked {
            return Err(LiquidityPoolError::ReentrancyDetected);
        }
        let available = match self.total_liquidity.checked_sub(self.locked_liquidity) {
            Some(v) => v,
            None => return Err(LiquidityPoolError::Underflow),
        };
        if amount > available {
            return Err(LiquidityPoolError::InsufficientLiquidity);
        }
        let locked = match self.locked_liquidity.checked_add(amount) {
            Some(v) => v,
            None => return Err(LiquidityPoolError::Overflow),
        };
        if self.token.is_none() {
            return Err(LiquidityPoolError::NotInitialized);
        }
        self.reentrancy_locked = true;
        self.locked_liquidity = locked;
        let effects = vec![
            Effect::Transfer {
                from: Party::Pool,
                to: Party::External(merchant.duplicate()),
                amount,
            },
            Effect::LoanFunded { creditline: creditline.duplicate(), amount },
        ];
        assert(effects_view(effects@) =~= fund_loan_effects(creditline@, merchant@, amount));
        Ok(effects)
    }
}

impl LiquidityPoolContract {
    // -----------------------------------------------------------------------
    // Interest distribution
    // -----------------------------------------------------------------------

    /// The split of `interest`, computed without touching the pool: the
    /// providers' portion, the treasury's, the merchant fund's, and the new
    /// total liquidity.
    fn plan_distribution(&self, interest: i128) -> (r: Result<
        (i128, i128, i128, i128),
        LiquidityPoolError,
    >)
        ensures
            r is Err <==> distribution_refusal(self@, interest) is Some,
            r matches Err(e) ==> distribution_refusal(self@, interest) == Some(e),
            r matches Ok((lp, protocol, merchant, total_liquidity)) ==> {
                &&& lp == lp_amount(interest)
                &&& protocol == protocol_amount(interest)
                &&& merchant == merchant_amount(interest)
                &&& total_liquidity == self@.total_liquidity + lp
            },
    {
        if interest <= 0 {
            return Err(LiquidityPoolError::InvalidAmount);
        }
        let lp = match mul_div(interest, LP_FEE_BPS, TOTAL_BPS) {
            Some(v) => v,
            None => return Err(LiquidityPoolError::Overflow),
        };
        let protocol = match mul_div(interest, PROTOCOL_FEE_BPS, TOTAL_BPS) {
            Some(v) => v,
            None => return Err(LiquidityPoolError::Overflow),
        };
        let rest = match interest.checked_sub(lp) {
            Some(v) => v,
            None => return Err(LiquidityPoolError::Underflow),
        };
        let merchant = match rest.checked_sub(protocol) {
            Some(v) => v,
            None => return Err(LiquidityPoolError::Underflow),
        };
        if self.token.is_none() {
            return Err(LiquidityPoolError::NotInitialized);
        }
        let total_liquidity = match self.total_liquidity.checked_add(lp) {
            Some(v) => v,
            None => return Err(LiquidityPoolError::Overflow),
        };
        Ok((lp, protocol, merchant, total_liquidity))
    }

    /// The transfers and the event of a distribution whose split is known.
    fn distribution_effect_list(&self, interest: i128, lp: i128, protocol: i128, merchant: i128) -> (v:
        Vec<Effect>)
        requires
            lp == lp_amount(interest),
            protocol == protocol_amount(interest),
            merchant == merchant_amount(interest),
        ensures
            effects_view(v@) == distribution_effects(self@, interest),
    {
        let mut v: Vec<Effect> = Vec::new();
        if protocol > 0 {
            match &self.treasury {
                Some(t) => {
                    v.push(
                        Effect::Transfer {
                            from: Party::Pool,
                            to: Party::External(t.duplicate()),
                            amount: protocol,
                        },
                    );
                },
                None => {},
            }
        }
        let ghost first = effects_view(v@);
        assert(first =~= payout(self@.treasury, protocol as int));
        if merchant > 0 {
            match &self.merchant_fund {
                Some(m) => {
                    v.push(
                        Effect::Transfer {
                            from: Party::Pool,
                            to: Party::External(m.duplicate()),
                            amount: merchant,
                        },
                    );
                },
                None => {},
            }
        }
        let ghost second = effects_view(v@);
        assert(second =~= first + payout(self@.merchant_fund, merchant as int));
        v.push(
            Effect::InterestDistributed {
                total: interest,
                lp_amount: lp,
                protocol_amount: protocol,
                merchant_amount: merchant,
            },
        );
        assert(effects_view(v@) =~= distribution_effects(self@, interest));
        v
    }

    /// Splits `interest` that has arrived in the pool: 85 % stays with the
    /// providers (raising the value of every share), 10 % goes to the
    /// treasury and the remainder to the merchant fund. A portion whose
    /// recipient is not configured stays in the pool's token balance.
    fn distribute_interest_internal(&mut self, interest: i128) -> (r: Result<
        Vec<Effect>,
        LiquidityPoolError,
    >)
        ensures
            r is Err <==> distribution_refusal(old(self)@, interest) is Some,
            r matches Err(e) ==> distribution_refusal(old(self)@, interest) == Some(e)
                && *final(self) == *old(self),
            r matches Ok(effects) ==> {
                &&& *final(self) == (LiquidityPoolContract {
                    total_liquidity: (old(self).total_liquidity + lp_amount(interest)) as i128,
                    ..*old(self)
                })
                &&& effects_view(effects@) == distribution_effects(old(self)@, interest)
            },
    {
        let (lp, protocol, merchant, total_liquidity) = self.plan_distribution(interest)?;
        let effects = self.distribution_effect_list(interest, lp, protocol, merchant);
        self.total_liquidity = total_liquidity;
        Ok(effects)
    }

    /// Distributes `interest_amount` tokens already held by the pool (see
    /// the internal split). Only the administrator or the credit line may
    /// call.
    pub fn distribute_interest(&mut self, caller: &Account, interest_amount: i128) -> (r: Result<
        Vec<Effect>,
        LiquidityPoolError,
    >)
        ensures
            r is Err <==> distribute_refusal(old(self)@, caller@, interest_amount) is Some,
            r matches Err(e) ==> distribute_refusal(old(self)@, caller@, interest_amount) == Some(
                e,
            ) && *final(self) == *old(self),
            r matches Ok(effects) ==> {
                &&& final(self)@ == after_distribution(old(self)@, interest_amount)
                &&& effects_view(effects@) == distribution_effects(old(self)@, interest_amount)
            },
    {
        self.require_not_paused()?;
        let is_admin = match &self.admin {
            Some(a) => a.same_as(caller),
            None => return Err(LiquidityPoolError::NotInitialized),
        };
        let is_creditline = match &self.creditline {
            Some(c) => c.same_as(caller),
            None => false,
        };
        if !is_admin && !is_creditline {
            return Err(LiquidityPoolError::NotCreditLine);
        }
        self.enter_non_reentrant()?;
        match self.distribute_interest_internal(interest_amount) {
            Err(e) => {
                self.exit_non_reentrant();
                Err(e)
            },
            Ok(effects) => Ok(effects),
        }
    }
}

impl LiquidityPoolContract {
    // -----------------------------------------------------------------------
    // Repayments and guarantees
    // -----------------------------------------------------------------------

    /// Takes a loan repayment from the credit line: `principal` is unlocked
    /// and `interest` is distributed. The host must pull `principal +
    /// interest` from the credit line before the distribution's transfers.
    /// Only the registered credit line may call.
    pub fn receive_repayment(&mut self, creditline: &Account, principal: i128, interest: i128) -> (r:
        Result<Vec<Effect>, LiquidityPoolError>)
        ensures
            r is Err <==> repayment_refusal(old(self)@, creditline@, principal, interest) is Some,
            r matches Err(e) ==> repayment_refusal(old(self)@, creditline@, principal, interest)
                == Some(e) && *final(self) == *old(self),
            r matches Ok(effects) ==> {
                &&& final(self)@ == after_repayment(old(self)@, principal, interest)
                &&& effects_view(effects@) == repayment_effects(
                    old(self)@,
                    creditline@,
                    principal,
                    interest,
                )
            },
    {
        require_creditline(self, creditline)?;
        self.require_not_paused()?;
        if principal < 0 || interest < 0 {
            return Err(LiquidityPoolError::InvalidAmount);
        }
        let total = match principal.checked_add(interest) {
            Some(v) => v,
            None => return Err(LiquidityPoolError::Overflow),
        };
        if total <= 0 {
            return Err(LiquidityPoolError::InvalidAmount);
        }
        if self.reentrancy_locked {
            return Err(LiquidityPoolError::ReentrancyDetected);
        }
        let locked = match self.locked_liquidity.checked_sub(principal) {
            Some(v) => v,
            None => return Err(LiquidityPoolError::Underflow),
        };
        if self.token.is_none() {
            return Err(LiquidityPoolError::NotInitialized);
        }
        let mut effects = vec![
            Effect::Transfer {
                from: Party::External(creditline.duplicate()),
                to: Party::Pool,
                amount: total,
            },
            Effect::RepaymentReceived { creditline: creditline.duplicate(), principal, interest },
        ];
        let ghost head = effects_view(effects@);
        if interest > 0 {
            let mut distributed = self.distribute_interest_internal(interest)?;
            let ghost tail = effects_view(distributed@);
            effects.append(&mut distributed);
            assert(effects_view(effects@) =~= head + tail);
        }
        self.reentrancy_locked = true;
        self.locked_liquidity = locked;
        assert(effects_view(effects@) =~= repayment_effects(
            old(self)@,
            creditline@,
            principal,
            interest,
        ));
        Ok(effects)
    }

    /// Takes a forfeited guarantee after a default: the amount recovered (at
    /// most what is locked) leaves the locked amount and joins the pool, and
    /// the host must pull exactly that amount from the credit line. Only the
    /// registered credit line may call.
    pub fn receive_guarantee(&mut self, creditline: &Account, amount: i128) -> (r: Result<
        Vec<Effect>,
        LiquidityPoolError,
    >)
        ensures
            r is Err <==> guarantee_refusal(old(self)@, creditline@, amount) is Some,
            r matches Err(e) ==> guarantee_refusal(old(self)@, creditline@, amount) == Some(e)
                && *final(self) == *old(self),
            r matches Ok(effects) ==> {
                let recovered = recovered_amount(amount, old(self)@.locked_liquidity);
                &&& final(self)@ == after_guarantee(old(self)@, recovered)
                &&& effects_view(effects@) == guarantee_effects(creditline@, recovered)
            },
    {
        require_creditline(self, creditline)?;
        self.require_not_paused()?;
        if amount <= 0 {
            return Err(LiquidityPoolError::InvalidAmount);
        }
        if self.reentrancy_locked {
            return Err(LiquidityPoolError::ReentrancyDetected);
        }
        let recovered = if self.locked_liquidity < amount {
            self.locked_liquidity
        } else {
            amount
        };
        let locked = match self.locked_liquidity.checked_sub(recovered) {
            Some(v) => v,
            None => return Err(LiquidityPoolError::Underflow),
        };
        let total_liquidity = match self.total_liquidity.checked_add(recovered) {
            Some(v) => v,
            None => return Err(LiquidityPoolError::Overflow),
        };
        if self.token.is_none() {
            return Err(LiquidityPoolError::NotInitialized);
        }
        self.reentrancy_locked = true;
        self.locked_liquidity = locked;
        self.total_liquidity = total_liquidity;
        let effects = vec![
            Effect::Transfer {
                from: Party::External(creditline.duplicate()),
                to: Party::Pool,
                amount: recovered,
            },
            Effect::GuaranteeReceived { creditline: creditline.duplicate(), amount: recovered },
        ];
        assert(effects_view(effects@) =~= guarantee_effects(creditline@, recovered));
        Ok(effects)
    }

    // -----------------------------------------------------------------------
    // Queries
    // -----------------------------------------------------------------------

    /// The pool's accounting with the derived available liquidity (total
    /// minus locked, saturating) and share price.
    pub fn get_pool_stats(&self) -> (stats: PoolStats)
        ensures
            stats.total_liquidity == self@.total_liquidity,
            stats.locked_liquidity == self@.locked_liquidity,
            stats.available_liquidity == saturating_diff(
                self@.total_liquidity,
                self@.locked_liquidity,
            ),
            stats.total_shares == self@.total_shares,
            stats.share_price == share_price_of(self@.total_liquidity, self@.total_shares),
    {
        let available_liquidity = saturating_sub(self.total_liquidity, self.locked_liquidity);
        let share_price = if self.total_shares == 0 {
            TOTAL_BPS
        } else {
            match mul_div(self.total_liquidity, TOTAL_BPS, self.total_shares) {
                Some(v) => v,
                None => TOTAL_BPS,
            }
        };
        PoolStats {
            total_liquidity: self.total_liquidity,
            locked_liquidity: self.locked_liquidity,
            available_liquidity,
            total_shares: self.total_shares,
            share_price,
        }
    }

    /// Shares held by `provider`.
    pub fn get_lp_shares(&self, provider: &Account) -> (r: i128)
        ensures
            r == self@.lp_shares[provider@],
    {
        self.lp_shares.get(provider)
    }

    /// Tokens that `shares` are worth at the current share price (zero when
    /// no shares exist or the product overflows).
    pub fn calculate_withdrawal(&self, shares: i128) -> (r: i128)
        ensures
            r == quoted_withdrawal(self@, shares),
    {
        if self.total_shares == 0 {
            return 0;
        }
        match mul_div(shares, self.total_liquidity, self.total_shares) {
            Some(v) => v,
            None => 0,
        }
    }
}

} // verus!
