//! Properties that hold across requests: what every accepted request keeps,
//! and how requests combine.
use vstd::arithmetic::div_mod::{
    lemma_div_by_multiple, lemma_div_is_ordered, lemma_fundamental_div_mod, lemma_mod_pos_bound,
};
use vstd::prelude::*;

use crate::effects::{EffectView, PartyView};
use crate::errors::LiquidityPoolError;
use crate::math::{checked_mul_div, div_toward_zero, fits_i128};
use crate::spec::{
    after_deposit, after_distribution, after_fund_loan, after_guarantee, after_repayment,
    after_withdraw, creditline_refusal, deposit_effects, deposit_refusal, distribution_effects,
    fund_loan_effects, payout, repayment_effects, withdraw_effects, deposit_shares, distribute_refusal,
    distribution_refusal, fund_loan_refusal, guarantee_refusal, lp_amount, lp_portion,
    merchant_amount, protocol_amount, protocol_portion, quoted_withdrawal, recovered_amount,
    released, repayment_refusal, share_price_of, share_value, withdraw_refusal,
    withdrawal_amount, PoolView,
};
use crate::types::{MERCHANT_FEE_BPS, TOTAL_BPS};

verus! {

/// Locked liquidity is never negative and never more than the pool holds.
pub open spec fn liquidity_backed(p: PoolView) -> bool {
    0 <= p.locked_liquidity <= p.total_liquidity
}

/// The outstanding shares are exactly the shares the providers hold, and no
/// provider holds a negative balance.
pub open spec fn shares_backed(p: PoolView) -> bool {
    &&& p.total_shares == p.lp_total
    &&& forall|k: Seq<u8>| #[trigger] p.lp_shares[k] >= 0
}

/// `x / d <= a` whenever `0 <= x <= a * d`.
proof fn lemma_quotient_at_most(x: int, d: int, a: int)
    requires
        d > 0,
        a >= 0,
        0 <= x <= a * d,
    ensures
        x / d <= a,
{
    lemma_div_is_ordered(x, a * d, d);
    lemma_div_by_multiple(a, d);
}

/// Every accepted request keeps the outstanding shares equal to the sum of
/// the providers' balances, with no balance negative: deposits and
/// withdrawals move both by the same number of shares, and no other request
/// touches either.
pub proof fn lemma_share_ledger_matches_total_shares(
    p: PoolView,
    who: Seq<u8>,
    x: i128,
    y: i128,
)
    requires
        shares_backed(p),
    ensures
        deposit_refusal(p, who, x) is None ==> shares_backed(
            after_deposit(p, who, x, deposit_shares(p, x)),
        ),
        withdraw_refusal(p, who, x) is None ==> shares_backed(
            after_withdraw(p, who, x, withdrawal_amount(p, x)),
        ),
        fund_loan_refusal(p, who, x) is None ==> shares_backed(after_fund_loan(p, x)),
        repayment_refusal(p, who, x, y) is None ==> shares_backed(after_repayment(p, x, y)),
        guarantee_refusal(p, who, x) is None ==> shares_backed(
            after_guarantee(p, recovered_amount(x, p.locked_liquidity)),
        ),
        distribute_refusal(p, who, x) is None ==> shares_backed(after_distribution(p, x)),
        shares_backed(released(p)),
{
    if deposit_refusal(p, who, x) is None {
        let q = after_deposit(p, who, x, deposit_shares(p, x));
        assert forall|k: Seq<u8>| #[trigger] q.lp_shares[k] >= 0 by {
            if k != who {
                assert(q.lp_shares[k] == p.lp_shares[k]);
            }
        }
    }
    if withdraw_refusal(p, who, x) is None {
        let q = after_withdraw(p, who, x, withdrawal_amount(p, x));
        assert forall|k: Seq<u8>| #[trigger] q.lp_shares[k] >= 0 by {
            if k != who {
                assert(q.lp_shares[k] == p.lp_shares[k]);
            }
        }
    }
}

/// Every accepted request except a repayment of more principal than is
/// locked keeps the locked liquidity between zero and the total liquidity:
/// loans only lock what is available, withdrawals only pay out what is not
/// locked, and guarantees recover at most what is locked.
pub proof fn lemma_locked_liquidity_stays_backed(p: PoolView, who: Seq<u8>, x: i128, y: i128)
    requires
        liquidity_backed(p),
    ensures
        deposit_refusal(p, who, x) is None ==> liquidity_backed(
            after_deposit(p, who, x, deposit_shares(p, x)),
        ),
        withdraw_refusal(p, who, x) is None ==> liquidity_backed(
            after_withdraw(p, who, x, withdrawal_amount(p, x)),
        ),
        fund_loan_refusal(p, who, x) is None ==> liquidity_backed(after_fund_loan(p, x)),
        repayment_refusal(p, who, x, y) is None && x <= p.locked_liquidity ==> liquidity_backed(
            after_repayment(p, x, y),
        ),
        guarantee_refusal(p, who, x) is None ==> liquidity_backed(
            after_guarantee(p, recovered_amount(x, p.locked_liquidity)),
        ),
        distribute_refusal(p, who, x) is None ==> liquidity_backed(after_distribution(p, x)),
        liquidity_backed(released(p)),
{
    if distribute_refusal(p, who, x) is None {
        lemma_fee_split(x);
    }
    if repayment_refusal(p, who, x, y) is None && y > 0 {
        lemma_fee_split(y);
    }
}

/// Interest is split without loss: the providers get 85 % and the treasury
/// 10 %, both rounded toward zero, and the merchant fund gets the rest,
/// which is its 5 % rounded down plus at most two tokens of rounding dust.
pub proof fn lemma_fee_split(interest: i128)
    requires
        interest > 0,
        lp_portion(interest) is Some,
        protocol_portion(interest) is Some,
    ensures
        lp_amount(interest) + protocol_amount(interest) + merchant_amount(interest) == interest,
        lp_amount(interest) == interest * 8500 / 10000,
        protocol_amount(interest) == interest * 1000 / 10000,
        0 <= protocol_amount(interest) <= lp_amount(interest) <= interest,
        (interest * MERCHANT_FEE_BPS) / (TOTAL_BPS as int) <= merchant_amount(interest) <= (
        interest * MERCHANT_FEE_BPS) / (TOTAL_BPS as int) + 2,
{
    let i = interest as int;
    let lp = (i * 8500) / 10000;
    let pr = (i * 1000) / 10000;
    let q = (i * 500) / 10000;
    lemma_fundamental_div_mod(i * 8500, 10000);
    lemma_fundamental_div_mod(i * 1000, 10000);
    lemma_fundamental_div_mod(i * 500, 10000);
    lemma_mod_pos_bound(i * 8500, 10000);
    lemma_mod_pos_bound(i * 1000, 10000);
    lemma_mod_pos_bound(i * 500, 10000);
    assert(lp_amount(interest) == lp);
    assert(protocol_amount(interest) == pr);
}

/// Depositing and at once withdrawing the shares received never returns
/// more tokens than were deposited, unless the pool held liquidity that no
/// share claimed (the depositor then receives it).
pub proof fn lemma_deposit_then_withdraw_returns_at_most_deposit(
    p: PoolView,
    provider: Seq<u8>,
    amount: i128,
)
    requires
        deposit_refusal(p, provider, amount) is None,
        p.total_shares >= 0,
        p.total_liquidity >= 0,
        !(p.total_shares == 0 && p.total_liquidity > 0),
    ensures
        withdrawal_amount(
            released(after_deposit(p, provider, amount, deposit_shares(p, amount))),
            deposit_shares(p, amount),
        ) <= amount,
{
    let s = deposit_shares(p, amount) as int;
    let a = amount as int;
    let ts = p.total_shares as int;
    let tl = p.total_liquidity as int;
    let q = released(after_deposit(p, provider, amount, deposit_shares(p, amount)));
    assert(q.total_shares == ts + s && q.total_liquidity == tl + a);
    // The deposit issued at most the shares its tokens are worth.
    assert(s * tl <= a * ts) by {
        if ts == 0 || tl == 0 {
            assert(s == a);
            if tl == 0 {
                assert(s * tl == 0) by (nonlinear_arith)
                    requires
                        tl == 0,
                ;
                assert(a * ts >= 0) by (nonlinear_arith)
                    requires
                        a >= 0,
                        ts >= 0,
                ;
            } else {
                assert(false);
            }
        } else {
            assert(a * ts > 0) by (nonlinear_arith)
                requires
                    a > 0,
                    ts > 0,
            ;
            assert(s == (a * ts) / tl);
            lemma_fundamental_div_mod(a * ts, tl);
            lemma_mod_pos_bound(a * ts, tl);
            assert(tl * s == s * tl) by (nonlinear_arith);
        }
    }
    match share_value(deposit_shares(p, amount), q.total_liquidity, q.total_shares) {
        None => {},
        Some(v) => {
            let x = s * (tl + a);
            assert(x >= 0) by (nonlinear_arith)
                requires
                    x == s * (tl + a),
                    s > 0,
                    tl + a > 0,
            ;
            assert(x <= a * (ts + s)) by (nonlinear_arith)
                requires
                    s * tl <= a * ts,
                    x == s * (tl + a),
            ;
            assert(v == x / (ts + s));
            lemma_quotient_at_most(x, ts + s, a);
        },
    }
}

/// Rounding down keeps the order of exact ratios: `u * y <= x * w` gives
/// `u / w <= x / y`.
proof fn lemma_floor_ratio_monotone(x: int, y: int, u: int, w: int)
    requires
        y > 0,
        w > 0,
        x >= 0,
        u >= 0,
        u * y <= x * w,
    ensures
        u / w <= x / y,
{
    let q = u / w;
    lemma_fundamental_div_mod(u, w);
    lemma_mod_pos_bound(u, w);
    assert(q >= 0) by (nonlinear_arith)
        requires
            q == u / w,
            u >= 0,
            w > 0,
    ;
    assert(q * w <= u) by (nonlinear_arith)
        requires
            u == w * q + u % w,
            u % w >= 0,
    ;
    assert(q * w * y <= x * w) by (nonlinear_arith)
        requires
            q * w <= u,
            y > 0,
            u * y <= x * w,
    ;
    assert(q * y <= x) by (nonlinear_arith)
        requires
            q * w * y <= x * w,
            w > 0,
    ;
    lemma_div_is_ordered(q * y, x, y);
    lemma_div_by_multiple(q, y);
}

/// Deposits and withdrawals never lower the value of a share: both round in
/// favour of the providers who stay, so the share price (in basis points)
/// after either is at least what it was, whenever shares remain outstanding
/// and both prices are computed without overflow.
pub proof fn lemma_lp_operations_never_lower_share_price(p: PoolView, provider: Seq<u8>, x: i128)
    requires
        p.total_shares > 0,
        p.total_liquidity >= 0,
        checked_mul_div(p.total_liquidity, TOTAL_BPS, p.total_shares) is Some,
    ensures
        ({
            let q = after_deposit(p, provider, x, deposit_shares(p, x));
            deposit_refusal(p, provider, x) is None && checked_mul_div(
                q.total_liquidity,
                TOTAL_BPS,
                q.total_shares,
            ) is Some ==> share_price_of(q.total_liquidity, q.total_shares) >= share_price_of(
                p.total_liquidity,
                p.total_shares,
            )
        }),
        ({
            let q = after_withdraw(p, provider, x, withdrawal_amount(p, x));
            withdraw_refusal(p, provider, x) is None && q.total_shares > 0 && checked_mul_div(
                q.total_liquidity,
                TOTAL_BPS,
                q.total_shares,
            ) is Some ==> share_price_of(q.total_liquidity, q.total_shares) >= share_price_of(
                p.total_liquidity,
                p.total_shares,
            )
        }),
{
    let ts = p.total_shares as int;
    let tl = p.total_liquidity as int;
    let a = x as int;
    assert(tl * 10000 >= 0) by (nonlinear_arith)
        requires
            tl >= 0,
    ;
    if deposit_refusal(p, provider, x) is None {
        let q = after_deposit(p, provider, x, deposit_shares(p, x));
        let s = deposit_shares(p, x) as int;
        if checked_mul_div(q.total_liquidity, TOTAL_BPS, q.total_shares) is Some {
            assert(s * tl <= a * ts) by {
                if tl == 0 {
                    assert(s * tl == 0) by (nonlinear_arith)
                        requires
                            tl == 0,
                    ;
                    assert(a * ts >= 0) by (nonlinear_arith)
                        requires
                            a >= 0,
                            ts >= 0,
                    ;
                } else {
                    assert(a * ts > 0) by (nonlinear_arith)
                        requires
                            a > 0,
                            ts > 0,
                    ;
                    lemma_fundamental_div_mod(a * ts, tl);
                    lemma_mod_pos_bound(a * ts, tl);
                    assert(tl * s == s * tl) by (nonlinear_arith);
                }
            }
            let nl = tl + a;
            let ns = ts + s;
            assert((tl * 10000) * ns <= (nl * 10000) * ts) by (nonlinear_arith)
                requires
                    s * tl <= a * ts,
                    nl == tl + a,
                    ns == ts + s,
            ;
            assert(nl * 10000 > 0) by (nonlinear_arith)
                requires
                    nl > 0,
            ;
            lemma_floor_ratio_monotone(nl * 10000, ns, tl * 10000, ts);
        }
    }
    if withdraw_refusal(p, provider, x) is None {
        let q = after_withdraw(p, provider, x, withdrawal_amount(p, x));
        let v = withdrawal_amount(p, x) as int;
        if q.total_shares > 0 && checked_mul_div(q.total_liquidity, TOTAL_BPS, q.total_shares)
            is Some {
            assert(v * ts <= a * tl) by {
                assert(a * tl >= 0) by (nonlinear_arith)
                    requires
                        a > 0,
                        tl >= 0,
                ;
                if tl == 0 {
                    assert(a * tl == 0) by (nonlinear_arith)
                        requires
                            tl == 0,
                    ;
                    assert(v == 0);
                } else {
                    assert(a * tl > 0) by (nonlinear_arith)
                        requires
                            a > 0,
                            tl > 0,
                    ;
                    lemma_fundamental_div_mod(a * tl, ts);
                    lemma_mod_pos_bound(a * tl, ts);
                    assert(ts * v == v * ts) by (nonlinear_arith);
                }
            }
            let nl = tl - v;
            let ns = ts - a;
            assert(v <= tl) by (nonlinear_arith)
                requires
                    v * ts <= a * tl,
                    0 < a < ts,
                    tl >= 0,
            ;
            assert((tl * 10000) * ns <= (nl * 10000) * ts) by (nonlinear_arith)
                requires
                    v * ts <= a * tl,
                    nl == tl - v,
                    ns == ts - a,
            ;
            assert(nl * 10000 >= 0) by (nonlinear_arith)
                requires
                    nl >= 0,
            ;
            lemma_floor_ratio_monotone(nl * 10000, ns, tl * 10000, ts);
        }
    }
}

/// What a withdrawal pays out is exactly what the pool quoted for the same
/// shares just before.
pub proof fn lemma_withdrawal_matches_quote(p: PoolView, provider: Seq<u8>, shares: i128)
    requires
        withdraw_refusal(p, provider, shares) is None,
    ensures
        withdrawal_amount(p, shares) == quoted_withdrawal(p, shares),
{
}

/// Withdrawing every outstanding share pays out the whole pool and leaves
/// it empty.
pub proof fn lemma_withdrawing_every_share_empties_pool(p: PoolView, provider: Seq<u8>)
    requires
        withdraw_refusal(p, provider, p.total_shares) is None,
        p.total_liquidity >= 0,
    ensures
        withdrawal_amount(p, p.total_shares) == p.total_liquidity,
        after_withdraw(p, provider, p.total_shares, p.total_liquidity).total_shares == 0,
        after_withdraw(p, provider, p.total_shares, p.total_liquidity).total_liquidity == 0,
{
    let ts = p.total_shares as int;
    let tl = p.total_liquidity as int;
    assert(ts * tl >= 0) by (nonlinear_arith)
        requires
            ts > 0,
            tl >= 0,
    ;
    assert(tl * ts == ts * tl) by (nonlinear_arith);
    lemma_div_by_multiple(tl, ts);
    if tl > 0 {
        assert(div_toward_zero(ts * tl, ts) == (ts * tl) / ts);
    }
}

/// A loan that is funded and then repaid in full without interest leaves
/// the pool's accounting exactly as it was, and such a repayment is always
/// accepted once the loan has gone through.
pub proof fn lemma_loan_repaid_without_interest_restores_pool(
    p: PoolView,
    creditline: Seq<u8>,
    amount: i128,
)
    requires
        fund_loan_refusal(p, creditline, amount) is None,
    ensures
        repayment_refusal(released(after_fund_loan(p, amount)), creditline, amount, 0) is None,
        after_repayment(released(after_fund_loan(p, amount)), amount, 0) == (PoolView {
            reentrancy_locked: true,
            ..p
        }),
{
    let q = released(after_fund_loan(p, amount));
    assert(creditline_refusal(q, creditline) == creditline_refusal(p, creditline));
    assert(after_repayment(q, amount, 0) =~= (PoolView { reentrancy_locked: true, ..p }));
}

/// Interest never lowers the value of a share: after a distribution, the
/// share price and the value quoted for any number of shares are at least
/// what they were, as long as the new values are computed without overflow.
pub proof fn lemma_interest_never_lowers_share_value(
    p: PoolView,
    caller: Seq<u8>,
    interest: i128,
    shares: i128,
)
    requires
        distribute_refusal(p, caller, interest) is None,
        p.total_shares > 0,
        p.total_liquidity >= 0,
        shares >= 0,
        checked_mul_div(
            after_distribution(p, interest).total_liquidity,
            TOTAL_BPS,
            p.total_shares,
        ) is Some,
        share_value(shares, after_distribution(p, interest).total_liquidity, p.total_shares) is Some,
    ensures
        share_price_of(after_distribution(p, interest).total_liquidity, p.total_shares)
            >= share_price_of(p.total_liquidity, p.total_shares),
        quoted_withdrawal(after_distribution(p, interest), shares) >= quoted_withdrawal(p, shares),
{
    lemma_fee_split(interest);
    let ts = p.total_shares as int;
    let tl = p.total_liquidity as int;
    let nl = after_distribution(p, interest).total_liquidity as int;
    let sh = shares as int;
    assert(nl >= tl);
    assert(0 <= tl * 10000 <= nl * 10000);
    lemma_div_is_ordered(tl * 10000, nl * 10000, ts);
    assert(0 <= sh * tl <= sh * nl) by (nonlinear_arith)
        requires
            sh >= 0,
            0 <= tl <= nl,
    ;
    lemma_div_is_ordered(sh * tl, sh * nl, ts);
    assert((tl * 10000) / ts >= 0) by (nonlinear_arith)
        requires
            tl * 10000 >= 0,
            ts > 0,
    ;
    assert((sh * tl) / ts >= 0) by (nonlinear_arith)
        requires
            sh * tl >= 0,
            ts > 0,
    ;
}

/// While the pool is paused, every deposit, withdrawal and distribution is
/// refused as paused, and so is every loan, repayment or guarantee from the
/// registered credit line.
pub proof fn lemma_paused_pool_refuses(p: PoolView, who: Seq<u8>, x: i128, y: i128)
    requires
        p.paused,
    ensures
        deposit_refusal(p, who, x) == Some(LiquidityPoolError::ContractPaused),
        withdraw_refusal(p, who, x) == Some(LiquidityPoolError::ContractPaused),
        distribute_refusal(p, who, x) == Some(LiquidityPoolError::ContractPaused),
        creditline_refusal(p, who) is None ==> {
            &&& fund_loan_refusal(p, who, x) == Some(LiquidityPoolError::ContractPaused)
            &&& repayment_refusal(p, who, x, y) == Some(LiquidityPoolError::ContractPaused)
            &&& guarantee_refusal(p, who, x) == Some(LiquidityPoolError::ContractPaused)
        },
{
}

// ---------------------------------------------------------------------------
// Token movements asked of the host
// ---------------------------------------------------------------------------

/// Tokens that effect `e` moves from `from` to `to` (zero unless it is a
/// transfer between exactly those two parties).
pub open spec fn transfer_amount(e: EffectView, from: PartyView, to: PartyView) -> int {
    match e {
        EffectView::Transfer { from: f, to: t, amount } => if f == from && t == to {
            amount as int
        } else {
            0
        },
        _ => 0,
    }
}

/// Tokens that a list of effects moves, in all, from `from` to `to`.
pub open spec fn transfer_total(s: Seq<EffectView>, from: PartyView, to: PartyView) -> int
    decreases s.len(),
{
    if s.len() == 0 {
        0
    } else {
        transfer_total(s.drop_last(), from, to) + transfer_amount(s.last(), from, to)
    }
}

proof fn lemma_transfer_total_concat(a: Seq<EffectView>, b: Seq<EffectView>, from: PartyView, to: PartyView)
    ensures
        transfer_total(a + b, from, to) == transfer_total(a, from, to) + transfer_total(b, from, to),
    decreases b.len(),
{
    if b.len() == 0 {
        assert(a + b =~= a);
    } else {
        assert((a + b).drop_last() =~= a + b.drop_last());
        assert((a + b).last() == b.last());
        lemma_transfer_total_concat(a, b.drop_last(), from, to);
    }
}

proof fn lemma_transfer_total_one(x: EffectView, from: PartyView, to: PartyView)
    ensures
        transfer_total(seq![x], from, to) == transfer_amount(x, from, to),
{
    let s = seq![x];
    assert(s.drop_last() =~= Seq::<EffectView>::empty());
    assert(transfer_total(Seq::<EffectView>::empty(), from, to) == 0);
    assert(s.last() == x);
    assert(s.len() == 1);
}

proof fn lemma_transfer_total_two(x: EffectView, y: EffectView, from: PartyView, to: PartyView)
    ensures
        transfer_total(seq![x, y], from, to) == transfer_amount(x, from, to) + transfer_amount(
            y,
            from,
            to,
        ),
{
    assert(seq![x, y] =~= seq![x] + seq![y]);
    lemma_transfer_total_concat(seq![x], seq![y], from, to);
    lemma_transfer_total_one(x, from, to);
    lemma_transfer_total_one(y, from, to);
}

/// An accepted deposit pulls exactly the deposited amount from the provider
/// into the pool, and moves no other tokens: the pool's token inflow is the
/// growth of its total liquidity, whatever number of shares is issued.
pub proof fn lemma_deposit_pulls_the_deposited_amount(
    p: PoolView,
    provider: Seq<u8>,
    amount: i128,
)
    requires
        deposit_refusal(p, provider, amount) is None,
    ensures
        ({
            let e = deposit_effects(provider, amount, deposit_shares(p, amount));
            let q = after_deposit(p, provider, amount, deposit_shares(p, amount));
            &&& transfer_total(e, PartyView::External(provider), PartyView::Pool) == amount
            &&& transfer_total(e, PartyView::External(provider), PartyView::Pool)
                == q.total_liquidity - p.total_liquidity
            &&& forall|f: PartyView, t: PartyView|
                !(f == PartyView::External(provider) && t == PartyView::Pool) ==> #[trigger] transfer_total(
                    e,
                    f,
                    t,
                ) == 0
        }),
{
    let e = deposit_effects(provider, amount, deposit_shares(p, amount));
    assert forall|f: PartyView, t: PartyView| true implies #[trigger] transfer_total(e, f, t)
        == transfer_amount(e[0], f, t) + transfer_amount(e[1], f, t) by {
        lemma_transfer_total_two(e[0], e[1], f, t);
        assert(e =~= seq![e[0], e[1]]);
    }
}

/// An accepted withdrawal pays the provider exactly the value returned, which
/// is the drop of the pool's total liquidity, and moves no other tokens.
pub proof fn lemma_withdrawal_pays_the_returned_value(p: PoolView, provider: Seq<u8>, shares: i128)
    requires
        withdraw_refusal(p, provider, shares) is None,
    ensures
        ({
            let v = withdrawal_amount(p, shares);
            let e = withdraw_effects(provider, shares, v);
            let q = after_withdraw(p, provider, shares, v);
            &&& transfer_total(e, PartyView::Pool, PartyView::External(provider)) == v
            &&& transfer_total(e, PartyView::Pool, PartyView::External(provider))
                == p.total_liquidity - q.total_liquidity
            &&& forall|f: PartyView, t: PartyView|
                !(f == PartyView::Pool && t == PartyView::External(provider)) ==> #[trigger] transfer_total(
                    e,
                    f,
                    t,
                ) == 0
        }),
{
    let v = withdrawal_amount(p, shares);
    let e = withdraw_effects(provider, shares, v);
    assert forall|f: PartyView, t: PartyView| true implies #[trigger] transfer_total(e, f, t)
        == transfer_amount(e[0], f, t) + transfer_amount(e[1], f, t) by {
        lemma_transfer_total_two(e[0], e[1], f, t);
        assert(e =~= seq![e[0], e[1]]);
    }
}

/// An accepted loan pays exactly the lent amount from the pool to the
/// merchant passed in, and moves no other tokens: what the merchant receives
/// is what becomes locked.
pub proof fn lemma_loan_pays_the_merchant(
    p: PoolView,
    creditline: Seq<u8>,
    merchant: Seq<u8>,
    amount: i128,
)
    requires
        fund_loan_refusal(p, creditline, amount) is None,
    ensures
        ({
            let e = fund_loan_effects(creditline, merchant, amount);
            &&& transfer_total(e, PartyView::Pool, PartyView::External(merchant)) == amount
            &&& transfer_total(e, PartyView::Pool, PartyView::External(merchant))
                == after_fund_loan(p, amount).locked_liquidity - p.locked_liquidity
            &&& forall|f: PartyView, t: PartyView|
                !(f == PartyView::Pool && t == PartyView::External(merchant)) ==> #[trigger] transfer_total(
                    e,
                    f,
                    t,
                ) == 0
        }),
{
    let e = fund_loan_effects(creditline, merchant, amount);
    assert forall|f: PartyView, t: PartyView| true implies #[trigger] transfer_total(e, f, t)
        == transfer_amount(e[0], f, t) + transfer_amount(e[1], f, t) by {
        lemma_transfer_total_two(e[0], e[1], f, t);
        assert(e =~= seq![e[0], e[1]]);
    }
}

proof fn lemma_payout_moves_nothing_into_pool(to: Option<Seq<u8>>, amount: int, who: Seq<u8>)
    ensures
        transfer_total(payout(to, amount), PartyView::External(who), PartyView::Pool) == 0,
{
    match to {
        Some(a) => if amount > 0 {
            lemma_transfer_total_one(
                EffectView::Transfer {
                    from: PartyView::Pool,
                    to: PartyView::External(a),
                    amount: amount as i128,
                },
                PartyView::External(who),
                PartyView::Pool,
            );
        },
        None => {},
    }
}

/// An accepted repayment pulls exactly `principal + interest` from the credit
/// line into the pool, whatever amount is locked; the distribution of the
/// interest only moves tokens out of the pool.
pub proof fn lemma_repayment_pulls_principal_plus_interest(
    p: PoolView,
    creditline: Seq<u8>,
    principal: i128,
    interest: i128,
)
    requires
        repayment_refusal(p, creditline, principal, interest) is None,
    ensures
        transfer_total(
            repayment_effects(p, creditline, principal, interest),
            PartyView::External(creditline),
            PartyView::Pool,
        ) == principal + interest,
{
    let from = PartyView::External(creditline);
    let to = PartyView::Pool;
    let head = seq![
        EffectView::Transfer {
            from: PartyView::External(creditline),
            to: PartyView::Pool,
            amount: (principal + interest) as i128,
        },
        EffectView::RepaymentReceived { creditline, principal, interest },
    ];
    lemma_transfer_total_two(head[0], head[1], from, to);
    assert(head =~= seq![head[0], head[1]]);
    let tail = if interest > 0 {
        distribution_effects(p, interest)
    } else {
        Seq::empty()
    };
    assert(repayment_effects(p, creditline, principal, interest) == head + tail);
    lemma_transfer_total_concat(head, tail, from, to);
    if interest > 0 {
        let t1 = payout(p.treasury, protocol_amount(interest) as int);
        let t2 = payout(p.merchant_fund, merchant_amount(interest));
        let t3 = seq![
            EffectView::InterestDistributed {
                total: interest,
                lp_amount: lp_amount(interest),
                protocol_amount: protocol_amount(interest),
                merchant_amount: merchant_amount(interest) as i128,
            },
        ];
        lemma_transfer_total_concat(t1 + t2, t3, from, to);
        lemma_transfer_total_concat(t1, t2, from, to);
        lemma_payout_moves_nothing_into_pool(p.treasury, protocol_amount(interest) as int, creditline);
        lemma_payout_moves_nothing_into_pool(p.merchant_fund, merchant_amount(interest), creditline);
        lemma_transfer_total_one(t3[0], from, to);
        assert(t3 =~= seq![t3[0]]);
    } else {
        assert(transfer_total(tail, from, to) == 0);
    }
}

/// The quote for `shares` is their value at the current share price and does
/// not depend on how much liquidity is locked: no shares outstanding quote
/// zero, and otherwise, for non-negative amounts whose product fits, the quote
/// is `shares * total_liquidity / total_shares` rounded down.
pub proof fn lemma_quote_is_share_value(p: PoolView, shares: i128, locked: i128)
    ensures
        quoted_withdrawal(PoolView { locked_liquidity: locked, ..p }, shares) == quoted_withdrawal(
            p,
            shares,
        ),
        p.total_shares == 0 ==> quoted_withdrawal(p, shares) == 0,
        p.total_shares > 0 && shares >= 0 && p.total_liquidity >= 0 && fits_i128(
            shares * p.total_liquidity,
        ) ==> {
            let q = quoted_withdrawal(p, shares) as int;
            &&& q * p.total_shares <= shares * p.total_liquidity
            &&& shares * p.total_liquidity < q * p.total_shares + p.total_shares
        },
{
    let ts = p.total_shares as int;
    let x = shares * p.total_liquidity;
    if ts > 0 && shares >= 0 && p.total_liquidity >= 0 && fits_i128(x) {
        assert(x >= 0) by (nonlinear_arith)
            requires
                x == shares * p.total_liquidity,
                shares >= 0,
                p.total_liquidity >= 0,
        ;
        let d = x / ts;
        lemma_fundamental_div_mod(x, ts);
        lemma_mod_pos_bound(x, ts);
        assert(0 <= d <= x) by (nonlinear_arith)
            requires
                d == x / ts,
                x >= 0,
                ts > 0,
        ;
        assert(div_toward_zero(x, ts) == d);
        assert(quoted_withdrawal(p, shares) == d);
        assert(d * ts == ts * d) by (nonlinear_arith);
    }
}

} // verus!
