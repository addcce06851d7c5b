use liquidity_pool_contract::{
    mul_div, require_admin, require_creditline, saturating_sub, Account, Effect, LiquidityPoolContract,
    LiquidityPoolError, Party, ShareLedger, LP_FEE_BPS, MERCHANT_FEE_BPS, PROTOCOL_FEE_BPS, TOTAL_BPS,
};

fn acct(n: u8) -> Account {
    Account::new(vec![b'A', n])
}

const ADMIN: u8 = 1;
const TOKEN: u8 = 2;
const TREASURY: u8 = 3;
const FUND: u8 = 4;
const CREDIT: u8 = 5;

fn ready_pool() -> LiquidityPoolContract {
    let mut pool = LiquidityPoolContract::new();
    pool.initialize(acct(ADMIN), acct(TOKEN), acct(TREASURY), acct(FUND)).unwrap();
    pool.set_creditline(&acct(ADMIN), acct(CREDIT)).unwrap();
    pool
}

fn dep(pool: &mut LiquidityPoolContract, who: u8, amount: i128) -> i128 {
    let r = pool.deposit(&acct(who), amount).unwrap();
    pool.exit_non_reentrant();
    r.value
}

fn wd(pool: &mut LiquidityPoolContract, who: u8, shares: i128) -> i128 {
    let r = pool.withdraw(&acct(who), shares).unwrap();
    pool.exit_non_reentrant();
    r.value
}

fn snapshot(pool: &LiquidityPoolContract, who: &[u8]) -> (i128, i128, i128, bool, bool, Vec<i128>) {
    (
        pool.total_shares,
        pool.total_liquidity,
        pool.locked_liquidity,
        pool.paused,
        pool.reentrancy_locked,
        who.iter().map(|w| pool.get_lp_shares(&acct(*w))).collect(),
    )
}

fn transfer(e: &Effect) -> Option<(Option<Vec<u8>>, Option<Vec<u8>>, i128)> {
    let side = |p: &Party| match p {
        Party::Pool => None,
        Party::External(a) => Some(a.to_bytes()),
    };
    match e {
        Effect::Transfer { from, to, amount } => Some((side(from), side(to), *amount)),
        _ => None,
    }
}

// ─── arithmetic helpers ──────────────────────────────────────────────────────

#[test]
fn mul_div_rounds_toward_zero_and_detects_overflow() {
    assert_eq!(mul_div(1000, 1000, 1085), Some(921));
    assert_eq!(mul_div(-7, 1, 2), Some(-3));
    assert_eq!(mul_div(7, -1, 2), Some(-3));
    assert_eq!(mul_div(-7, -1, -2), Some(-3));
    assert_eq!(mul_div(5, 5, 0), None);
    assert_eq!(mul_div(i128::MAX, 2, 3), None);
    assert_eq!(mul_div(i128::MIN, 1, -1), None);
}

#[test]
fn saturating_sub_clamps() {
    assert_eq!(saturating_sub(10, 3), 7);
    assert_eq!(saturating_sub(3, 10), -7);
    assert_eq!(saturating_sub(i128::MIN, 1), i128::MIN);
    assert_eq!(saturating_sub(i128::MAX, -1), i128::MAX);
}

#[test]
fn fee_constants_add_up() {
    assert_eq!(LP_FEE_BPS + PROTOCOL_FEE_BPS + MERCHANT_FEE_BPS, TOTAL_BPS);
}

// ─── accounts and ledger ─────────────────────────────────────────────────────

#[test]
fn accounts_compare_by_bytes() {
    let a = Account::new(vec![1, 2, 3]);
    let b = Account::new(vec![1, 2, 3]);
    let c = Account::new(vec![1, 2]);
    assert!(a.same_as(&b));
    assert!(!a.same_as(&c));
    assert!(a.duplicate().same_as(&a));
    assert_eq!(a.to_bytes(), vec![1, 2, 3]);
}

#[test]
fn ledger_set_overwrites_only_its_owner() {
    let mut l = ShareLedger::new();
    l.set(&acct(7), 10);
    l.set(&acct(8), 20);
    l.set(&acct(7), 5);
    assert_eq!(l.get(&acct(7)), 5);
    assert_eq!(l.get(&acct(8)), 20);
    assert_eq!(l.get(&acct(9)), 0);
}

// ─── refusals ────────────────────────────────────────────────────────────────

#[test]
fn every_request_before_initialization_is_refused() {
    let mut pool = LiquidityPoolContract::new();
    assert_eq!(pool.deposit(&acct(9), 100).unwrap_err(), LiquidityPoolError::NotInitialized);
    assert_eq!(pool.get_admin().unwrap_err(), LiquidityPoolError::NotInitialized);
    assert_eq!(pool.get_token().unwrap_err(), LiquidityPoolError::NotInitialized);
    assert_eq!(pool.pause(&acct(ADMIN)).unwrap_err(), LiquidityPoolError::NotInitialized);
    assert_eq!(pool.fund_loan(&acct(CREDIT), &acct(9), 1).unwrap_err(), LiquidityPoolError::NotCreditLine);
    assert_eq!(pool.distribute_interest(&acct(ADMIN), 1).unwrap_err(), LiquidityPoolError::NotInitialized);
    assert!(pool.get_treasury().is_none());
    assert!(pool.get_creditline().is_none());
    assert_eq!(pool.total_liquidity, 0);
    assert!(!pool.reentrancy_locked);
}

#[test]
fn error_codes_are_stable() {
    let all = [
        (LiquidityPoolError::NotAdmin, 1),
        (LiquidityPoolError::AlreadyInitialized, 2),
        (LiquidityPoolError::NotInitialized, 3),
        (LiquidityPoolError::InvalidAmount, 4),
        (LiquidityPoolError::InsufficientShares, 5),
        (LiquidityPoolError::InsufficientLiquidity, 6),
        (LiquidityPoolError::Overflow, 7),
        (LiquidityPoolError::Underflow, 8),
        (LiquidityPoolError::NotCreditLine, 9),
        (LiquidityPoolError::ZeroTotalShares, 10),
        (LiquidityPoolError::ReentrancyDetected, 11),
        (LiquidityPoolError::ContractPaused, 12),
    ];
    for (e, c) in all {
        assert_eq!(e.code(), c);
    }
}

#[test]
fn overflowing_deposit_is_refused() {
    let mut pool = ready_pool();
    dep(&mut pool, 10, i128::MAX);
    assert_eq!(pool.deposit(&acct(11), 1).unwrap_err(), LiquidityPoolError::Overflow);
}

#[test]
fn share_computation_overflow_is_refused() {
    let mut pool = ready_pool();
    dep(&mut pool, 10, i128::MAX / 2);
    assert_eq!(pool.deposit(&acct(11), i128::MAX / 2).unwrap_err(), LiquidityPoolError::Overflow);
}

#[test]
fn deposit_rounding_to_no_shares_is_refused() {
    let mut pool = ready_pool();
    dep(&mut pool, 10, 1);
    pool.distribute_interest(&acct(ADMIN), 1000).unwrap();
    pool.exit_non_reentrant();
    // 851 tokens back one share: a one-token deposit buys none.
    assert_eq!(pool.deposit(&acct(11), 1).unwrap_err(), LiquidityPoolError::InvalidAmount);
}

#[test]
fn withdraw_without_outstanding_shares_is_refused() {
    let mut pool = ready_pool();
    pool.lp_shares.set(&acct(10), 5);
    assert_eq!(pool.withdraw(&acct(10), 5).unwrap_err(), LiquidityPoolError::ZeroTotalShares);
}

#[test]
fn underflowing_available_liquidity_is_refused() {
    let mut pool = ready_pool();
    pool.total_liquidity = i128::MIN;
    pool.locked_liquidity = 1;
    assert_eq!(pool.fund_loan(&acct(CREDIT), &acct(9), 1).unwrap_err(), LiquidityPoolError::Underflow);
}

#[test]
fn request_during_another_is_refused_as_reentrant() {
    let mut pool = ready_pool();
    let _pending = pool.deposit(&acct(10), 100).unwrap();
    assert!(pool.reentrancy_locked);
    assert_eq!(pool.deposit(&acct(10), 100).unwrap_err(), LiquidityPoolError::ReentrancyDetected);
    assert_eq!(pool.withdraw(&acct(10), 10).unwrap_err(), LiquidityPoolError::ReentrancyDetected);
    assert_eq!(
        pool.receive_repayment(&acct(CREDIT), 0, 10).unwrap_err(),
        LiquidityPoolError::ReentrancyDetected
    );
    assert_eq!(pool.enter_non_reentrant().unwrap_err(), LiquidityPoolError::ReentrancyDetected);
    pool.exit_non_reentrant();
    assert!(pool.enter_non_reentrant().is_ok());
}

#[test]
fn refused_request_leaves_pool_untouched() {
    let mut pool = ready_pool();
    dep(&mut pool, 10, 1_000);
    pool.fund_loan(&acct(CREDIT), &acct(9), 800).unwrap();
    pool.exit_non_reentrant();
    let before = snapshot(&pool, &[10]);
    assert_eq!(pool.withdraw(&acct(10), 500).unwrap_err(), LiquidityPoolError::InsufficientLiquidity);
    assert_eq!(pool.receive_repayment(&acct(CREDIT), 0, i128::MAX).unwrap_err(), LiquidityPoolError::Overflow);
    assert_eq!(pool.set_admin(&acct(10), acct(10)).unwrap_err(), LiquidityPoolError::NotAdmin);
    assert_eq!(snapshot(&pool, &[10]), before);
    assert_eq!(pool.get_admin().unwrap().to_bytes(), acct(ADMIN).to_bytes());
}

#[test]
fn access_checks_name_the_right_refusal() {
    let pool = ready_pool();
    assert!(require_admin(&pool, &acct(ADMIN)).is_ok());
    assert_eq!(require_admin(&pool, &acct(CREDIT)).unwrap_err(), LiquidityPoolError::NotAdmin);
    assert!(require_creditline(&pool, &acct(CREDIT)).is_ok());
    assert_eq!(require_creditline(&pool, &acct(ADMIN)).unwrap_err(), LiquidityPoolError::NotCreditLine);
}

// ─── effects ─────────────────────────────────────────────────────────────────

#[test]
fn deposit_pulls_tokens_then_announces() {
    let mut pool = ready_pool();
    let r = pool.deposit(&acct(10), 250).unwrap();
    assert_eq!(r.effects.len(), 2);
    assert_eq!(transfer(&r.effects[0]), Some((Some(acct(10).to_bytes()), None, 250)));
    match &r.effects[1] {
        Effect::LiquidityDeposited { provider, amount, shares } => {
            assert!(provider.same_as(&acct(10)));
            assert_eq!((*amount, *shares), (250, 250));
        },
        other => panic!("unexpected {:?}", other),
    }
}

#[test]
fn withdrawal_announces_then_pays_out() {
    let mut pool = ready_pool();
    dep(&mut pool, 10, 300);
    let r = pool.withdraw(&acct(10), 100).unwrap();
    assert!(matches!(r.effects[0], Effect::LiquidityWithdrawn { shares: 100, amount: 100, .. }));
    assert_eq!(transfer(&r.effects[1]), Some((None, Some(acct(10).to_bytes()), 100)));
}

#[test]
fn repayment_pulls_total_then_distributes() {
    let mut pool = ready_pool();
    let effects = pool.receive_repayment(&acct(CREDIT), 0, 101).unwrap();
    let transfers: Vec<_> = effects.iter().filter_map(transfer).collect();
    assert_eq!(
        transfers,
        vec![
            (Some(acct(CREDIT).to_bytes()), None, 101),
            (None, Some(acct(TREASURY).to_bytes()), 10),
            (None, Some(acct(FUND).to_bytes()), 6),
        ]
    );
    assert!(matches!(effects.last(), Some(Effect::InterestDistributed { total: 101, lp_amount: 85, protocol_amount: 10, merchant_amount: 6 })));
}

#[test]
fn guarantee_pulls_only_what_it_recovers() {
    let mut pool = ready_pool();
    dep(&mut pool, 10, 1_000);
    pool.fund_loan(&acct(CREDIT), &acct(9), 200).unwrap();
    pool.exit_non_reentrant();
    let effects = pool.receive_guarantee(&acct(CREDIT), 500).unwrap();
    assert_eq!(transfer(&effects[0]), Some((Some(acct(CREDIT).to_bytes()), None, 200)));
    assert!(matches!(effects[1], Effect::GuaranteeReceived { amount: 200, .. }));
}

#[test]
fn unconfigured_fee_recipient_leaves_portion_in_pool() {
    let mut pool = LiquidityPoolContract::new();
    pool.initialize(acct(ADMIN), acct(TOKEN), acct(TREASURY), acct(FUND)).unwrap();
    pool.treasury = None;
    let effects = pool.distribute_interest(&acct(ADMIN), 100).unwrap();
    let transfers: Vec<_> = effects.iter().filter_map(transfer).collect();
    assert_eq!(transfers, vec![(None, Some(acct(FUND).to_bytes()), 5)]);
    assert_eq!(pool.total_liquidity, 85);
}

// ─── laws on concrete values ─────────────────────────────────────────────────

#[test]
fn fee_split_loses_nothing() {
    for interest in [1i128, 7, 99, 100, 101, 1_000, 12_345, 999_999] {
        let mut pool = ready_pool();
        let effects = pool.distribute_interest(&acct(ADMIN), interest).unwrap();
        match effects.last() {
            Some(Effect::InterestDistributed { total, lp_amount, protocol_amount, merchant_amount }) => {
                assert_eq!(lp_amount + protocol_amount + merchant_amount, *total);
                assert_eq!(*lp_amount, interest * 8500 / 10000);
                assert_eq!(*protocol_amount, interest * 1000 / 10000);
                assert!(*merchant_amount >= interest * 500 / 10000);
                assert!(*merchant_amount <= interest * 500 / 10000 + 2);
            },
            other => panic!("unexpected {:?}", other),
        }
    }
}

#[test]
fn deposit_then_withdraw_never_profits() {
    let mut pool = ready_pool();
    dep(&mut pool, 10, 1_000_000);
    pool.distribute_interest(&acct(ADMIN), 200_000).unwrap();
    pool.exit_non_reentrant();
    for amount in [1i128, 10, 100, 333, 10_000] {
        let shares = match pool.deposit(&acct(11), amount) {
            Ok(r) => r.value,
            Err(_) => continue,
        };
        pool.exit_non_reentrant();
        assert!(wd(&mut pool, 11, shares) <= amount);
    }
}

#[test]
fn first_depositor_collects_liquidity_no_share_claims() {
    let mut pool = ready_pool();
    pool.distribute_interest(&acct(ADMIN), 100).unwrap();
    pool.exit_non_reentrant();
    let shares = dep(&mut pool, 10, 1_000);
    assert_eq!(shares, 1_000);
    assert_eq!(wd(&mut pool, 10, 1_000), 1_085);
}

#[test]
fn loan_repaid_without_interest_restores_pool() {
    let mut pool = ready_pool();
    dep(&mut pool, 10, 5_000);
    let before = snapshot(&pool, &[10]);
    pool.fund_loan(&acct(CREDIT), &acct(9), 3_000).unwrap();
    pool.exit_non_reentrant();
    pool.receive_repayment(&acct(CREDIT), 3_000, 0).unwrap();
    pool.exit_non_reentrant();
    assert_eq!(snapshot(&pool, &[10]), before);
}

#[test]
fn withdrawing_every_share_empties_pool() {
    let mut pool = ready_pool();
    dep(&mut pool, 10, 700);
    dep(&mut pool, 11, 300);
    pool.distribute_interest(&acct(ADMIN), 77).unwrap();
    pool.exit_non_reentrant();
    let tl = pool.total_liquidity;
    // Move every share to one provider so that one withdrawal covers them all.
    pool.lp_shares.set(&acct(10), 1_000);
    pool.lp_shares.set(&acct(11), 0);
    assert_eq!(wd(&mut pool, 10, 1_000), tl);
    assert_eq!(pool.total_shares, 0);
    assert_eq!(pool.total_liquidity, 0);
}

#[test]
fn withdrawal_matches_quote() {
    let mut pool = ready_pool();
    dep(&mut pool, 10, 10_000);
    pool.distribute_interest(&acct(ADMIN), 1_234).unwrap();
    pool.exit_non_reentrant();
    for shares in [1i128, 17, 999, 5_000] {
        let quote = pool.calculate_withdrawal(shares);
        assert_eq!(wd(&mut pool, 10, shares), quote);
    }
}

#[test]
fn interest_never_lowers_share_price() {
    let mut pool = ready_pool();
    dep(&mut pool, 10, 3_333);
    let mut price = pool.get_pool_stats().share_price;
    let mut quote = pool.calculate_withdrawal(1_000);
    for interest in [1i128, 2, 50, 999] {
        pool.distribute_interest(&acct(CREDIT), interest).unwrap();
        pool.exit_non_reentrant();
        let stats = pool.get_pool_stats();
        assert!(stats.share_price >= price);
        assert!(pool.calculate_withdrawal(1_000) >= quote);
        price = stats.share_price;
        quote = pool.calculate_withdrawal(1_000);
    }
}

#[test]
fn outstanding_shares_equal_provider_balances() {
    let mut pool = ready_pool();
    dep(&mut pool, 10, 1_000);
    dep(&mut pool, 11, 2_000);
    pool.distribute_interest(&acct(ADMIN), 500).unwrap();
    pool.exit_non_reentrant();
    dep(&mut pool, 12, 777);
    wd(&mut pool, 11, 1_234);
    dep(&mut pool, 10, 55);
    let sum: i128 = [10u8, 11, 12].iter().map(|w| pool.get_lp_shares(&acct(*w))).sum();
    assert_eq!(sum, pool.total_shares);
}

#[test]
fn locked_liquidity_stays_within_total() {
    let mut pool = ready_pool();
    dep(&mut pool, 10, 1_000);
    pool.fund_loan(&acct(CREDIT), &acct(9), 900).unwrap();
    pool.exit_non_reentrant();
    assert!(pool.withdraw(&acct(10), 200).is_err());
    wd(&mut pool, 10, 100);
    pool.receive_guarantee(&acct(CREDIT), 5_000).unwrap();
    pool.exit_non_reentrant();
    let s = pool.get_pool_stats();
    assert!(0 <= s.locked_liquidity && s.locked_liquidity <= s.total_liquidity);
}

#[test]
fn repaying_more_principal_than_locked_drives_locked_negative() {
    let mut pool = ready_pool();
    dep(&mut pool, 10, 1_000);
    pool.receive_repayment(&acct(CREDIT), 100, 0).unwrap();
    pool.exit_non_reentrant();
    let s = pool.get_pool_stats();
    assert_eq!(s.locked_liquidity, -100);
    assert_eq!(s.available_liquidity, 1_100);
}

#[test]
fn paused_pool_refuses_every_money_movement() {
    let mut pool = ready_pool();
    dep(&mut pool, 10, 1_000);
    pool.pause(&acct(ADMIN)).unwrap();
    let paused = LiquidityPoolError::ContractPaused;
    assert_eq!(pool.deposit(&acct(10), 1).unwrap_err(), paused);
    assert_eq!(pool.withdraw(&acct(10), 1).unwrap_err(), paused);
    assert_eq!(pool.fund_loan(&acct(CREDIT), &acct(9), 1).unwrap_err(), paused);
    assert_eq!(pool.receive_repayment(&acct(CREDIT), 1, 0).unwrap_err(), paused);
    assert_eq!(pool.receive_guarantee(&acct(CREDIT), 1).unwrap_err(), paused);
    assert_eq!(pool.distribute_interest(&acct(ADMIN), 1).unwrap_err(), paused);
    assert_eq!(pool.require_not_paused().unwrap_err(), paused);
    // Configuration is still possible while paused.
    pool.set_treasury(&acct(ADMIN), acct(20)).unwrap();
    assert!(pool.get_treasury().unwrap().same_as(&acct(20)));
}

#[test]
fn share_price_falls_back_on_overflow() {
    let mut pool = ready_pool();
    pool.total_shares = 1;
    pool.total_liquidity = i128::MAX;
    assert_eq!(pool.get_pool_stats().share_price, 10_000);
    assert_eq!(pool.calculate_withdrawal(2), 0);
}
