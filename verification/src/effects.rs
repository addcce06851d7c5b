use vstd::prelude::*;

use crate::account::Account;

verus! {

/// A side of a token transfer: the pool itself or some outside address.
#[derive(Debug)]
pub enum Party {
    Pool,
    External(Account),
}

/// Identity of a [`Party`].
pub enum PartyView {
    Pool,
    External(Seq<u8>),
}

impl View for Party {
    type V = PartyView;

    open spec fn view(&self) -> PartyView {
        match self {
            Party::Pool => PartyView::Pool,
            Party::External(a) => PartyView::External(a@),
        }
    }
}

/// Something the host must do once the pool has accepted a request: move
/// tokens, or publish an event.
#[derive(Debug)]
pub enum Effect {
    /// Move `amount` tokens of the pool's token from `from` to `to`.
    Transfer { from: Party, to: Party, amount: i128 },
    /// `provider` deposited `amount` tokens and received `shares`.
    LiquidityDeposited { provider: Account, amount: i128, shares: i128 },
    /// `provider` burned `shares` and received `amount` tokens.
    LiquidityWithdrawn { provider: Account, shares: i128, amount: i128 },
    /// The credit line drew `amount` tokens for a loan.
    LoanFunded { creditline: Account, amount: i128 },
    /// The credit line paid back `principal` plus `interest`.
    RepaymentReceived { creditline: Account, principal: i128, interest: i128 },
    /// The credit line handed over `amount` tokens of a forfeited guarantee.
    GuaranteeReceived { creditline: Account, amount: i128 },
    /// `total` interest was split into the providers', treasury's and
    /// merchant fund's portions.
    InterestDistributed { total: i128, lp_amount: i128, protocol_amount: i128, merchant_amount: i128 },
}

/// An [`Effect`] with accounts taken by identity.
pub enum EffectView {
    Transfer { from: PartyView, to: PartyView, amount: i128 },
    LiquidityDeposited { provider: Seq<u8>, amount: i128, shares: i128 },
    LiquidityWithdrawn { provider: Seq<u8>, shares: i128, amount: i128 },
    LoanFunded { creditline: Seq<u8>, amount: i128 },
    RepaymentReceived { creditline: Seq<u8>, principal: i128, interest: i128 },
    GuaranteeReceived { creditline: Seq<u8>, amount: i128 },
    InterestDistributed { total: i128, lp_amount: i128, protocol_amount: i128, merchant_amount: i128 },
}

impl View for Effect {
    type V = EffectView;

    open spec fn view(&self) -> EffectView {
        match self {
            Effect::Transfer { from, to, amount } => EffectView::Transfer {
                from: from@,
                to: to@,
                amount: *amount,
            },
            Effect::LiquidityDeposited { provider, amount, shares } =>
                EffectView::LiquidityDeposited { provider: provider@, amount: *amount, shares: *shares },
            Effect::LiquidityWithdrawn { provider, shares, amount } =>
                EffectView::LiquidityWithdrawn { provider: provider@, shares: *shares, amount: *amount },
            Effect::LoanFunded { creditline, amount } => EffectView::LoanFunded {
                creditline: creditline@,
                amount: *amount,
            },
            Effect::RepaymentReceived { creditline, principal, interest } =>
                EffectView::RepaymentReceived {
                    creditline: creditline@,
                    principal: *principal,
                    interest: *interest,
                },
            Effect::GuaranteeReceived { creditline, amount } => EffectView::GuaranteeReceived {
                creditline: creditline@,
                amount: *amount,
            },
            Effect::InterestDistributed { total, lp_amount, protocol_amount, merchant_amount } =>
                EffectView::InterestDistributed {
                    total: *total,
                    lp_amount: *lp_amount,
                    protocol_amount: *protocol_amount,
                    merchant_amount: *merchant_amount,
                },
        }
    }
}

/// The effects of a list, each taken by its view.
pub open spec fn effects_view(s: Seq<Effect>) -> Seq<EffectView> {
    s.map_values(|e: Effect| e@)
}

/// A request's result value together with what the host must carry out.
#[derive(Debug)]
pub struct Receipt {
    pub value: i128,
    pub effects: Vec<Effect>,
}

} // verus!
