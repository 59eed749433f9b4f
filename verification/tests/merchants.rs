//! Merchants: pausing, configuration, earnings, withdrawals and refunds.

use subscription_vault::accounting::{add_total_accounted, get_total_accounted};
use subscription_vault::admin::{add_accepted_token, do_init};
use subscription_vault::events::{Action, Event, Subject, Transfer};
use subscription_vault::merchant::{
    check_merchant_withdrawal, credit_merchant_balance, credit_merchant_balance_for_token,
    get_merchant_balance, get_merchant_balance_by_token, get_merchant_config, get_merchant_paused,
    get_merchant_token_earnings, get_merchant_total_earnings, get_reconciliation_snapshot,
    merchant_refund, pause_merchant, set_merchant_config, set_merchant_paused, unpause_merchant,
    withdraw_merchant_funds, withdraw_merchant_funds_for_token,
};
use subscription_vault::types::{
    AccountToken, AccruedTotals, Address, BillingChargeKind, Error, MerchantConfig,
    TokenEarnings, TokenReconciliationSnapshot,
};
use subscription_vault::vault::Vault;

fn account(key: u128) -> Address {
    Address { is_contract: false, key_high: 0, key_low: key }
}

fn contract(key: u128) -> Address {
    Address { is_contract: true, key_high: 0, key_low: key }
}

const MERCHANT: Address = Address { is_contract: false, key_high: 0, key_low: 3 };
const TOKEN: Address = Address { is_contract: true, key_high: 0, key_low: 200 };

fn vault() -> Vault {
    let mut vault = Vault::new(contract(100), 50);
    do_init(&mut vault, TOKEN, 7, account(1), 1_000_000, 600).unwrap();
    vault.actions.clear();
    vault
}

/// A vault in which the merchant has earned `amount`, all of it accounted for.
fn earning(amount: i128) -> Vault {
    let mut v = vault();
    credit_merchant_balance(&mut v, &MERCHANT, amount, BillingChargeKind::Interval).unwrap();
    add_total_accounted(&mut v, &TOKEN, amount).unwrap();
    v
}

#[test]
fn pausing_and_unpausing_a_merchant() {
    let mut v = vault();
    assert!(!get_merchant_paused(&v, MERCHANT));
    assert_eq!(unpause_merchant(&mut v, MERCHANT), Ok(()));
    assert_eq!(v.events().len(), 0);
    assert_eq!(pause_merchant(&mut v, MERCHANT), Ok(()));
    assert!(get_merchant_paused(&v, MERCHANT));
    assert!(!get_merchant_paused(&v, account(4)));
    // Pausing again changes nothing and publishes nothing.
    assert_eq!(pause_merchant(&mut v, MERCHANT), Ok(()));
    assert_eq!(v.events().len(), 1);
    assert_eq!(unpause_merchant(&mut v, MERCHANT), Ok(()));
    assert!(!get_merchant_paused(&v, MERCHANT));
    let events = v.events();
    assert_eq!(events.len(), 2);
    assert_eq!(events[0].name(), "merchant_paused");
    assert_eq!(events[1].name(), "merchant_unpaused");
    assert_eq!(events[1].subject(), Subject::Account(MERCHANT));
}

#[test]
fn a_configured_pause_outlasts_unpausing() {
    let mut v = vault();
    let config = MerchantConfig {
        fee_address: Some(account(7)),
        redirect_url: "https://example.com/done".to_string(),
        is_paused: true,
    };
    assert!(get_merchant_config(&v, MERCHANT).is_none());
    assert_eq!(set_merchant_config(&mut v, MERCHANT, config), Ok(()));
    assert_eq!(v.actions, vec![Action::RequireAuth(MERCHANT)]);
    let stored = get_merchant_config(&v, MERCHANT).unwrap();
    assert_eq!(stored.fee_address, Some(account(7)));
    assert_eq!(stored.redirect_url, "https://example.com/done");
    assert!(get_merchant_paused(&v, MERCHANT));
    // Already paused, so the flag is not set.
    assert_eq!(pause_merchant(&mut v, MERCHANT), Ok(()));
    assert_eq!(v.events().len(), 0);
    assert_eq!(unpause_merchant(&mut v, MERCHANT), Ok(()));
    assert_eq!(v.events().len(), 1);
    assert!(get_merchant_paused(&v, MERCHANT));
}

#[test]
fn the_pause_flag_is_set_directly() {
    let mut v = vault();
    set_merchant_paused(&mut v, MERCHANT, true);
    assert!(get_merchant_paused(&v, MERCHANT));
    assert_eq!(v.actions.len(), 0);
}

#[test]
fn credits_accrue_by_kind() {
    let mut v = vault();
    for (amount, kind) in [
        (10, BillingChargeKind::Interval),
        (20, BillingChargeKind::Usage),
        (30, BillingChargeKind::OneOff),
        (5, BillingChargeKind::OneOff),
    ] {
        assert_eq!(credit_merchant_balance(&mut v, &MERCHANT, amount, kind), Ok(()));
    }
    assert_eq!(get_merchant_balance(&v, &MERCHANT), 65);
    let earnings = TokenEarnings {
        accruals: AccruedTotals { interval: 10, usage: 20, one_off: 35 },
        withdrawals: 0,
        refunds: 0,
    };
    assert_eq!(get_merchant_token_earnings(&v, &MERCHANT, &TOKEN), earnings);
    assert_eq!(get_merchant_total_earnings(&v, &MERCHANT), vec![(TOKEN, earnings)]);
    assert_eq!(get_merchant_balance(&v, &account(4)), 0);
    assert_eq!(get_merchant_total_earnings(&v, &account(4)).len(), 0);
}

#[test]
fn earnings_are_kept_per_token() {
    let mut v = vault();
    let other = contract(201);
    credit_merchant_balance(&mut v, &MERCHANT, 10, BillingChargeKind::Interval).unwrap();
    credit_merchant_balance_for_token(&mut v, &MERCHANT, &other, 7, BillingChargeKind::Usage)
        .unwrap();
    assert_eq!(get_merchant_balance_by_token(&v, &MERCHANT, &other), 7);
    assert_eq!(get_merchant_balance(&v, &MERCHANT), 10);
    let tokens: Vec<Address> =
        get_merchant_total_earnings(&v, &MERCHANT).iter().map(|(token, _)| *token).collect();
    assert_eq!(tokens, vec![TOKEN, other]);
}

#[test]
fn a_credit_without_a_default_token_is_refused() {
    let mut v = Vault::new(contract(100), 0);
    let result = credit_merchant_balance(&mut v, &MERCHANT, 1, BillingChargeKind::Interval);
    assert_eq!(result, Err(Error::NotFound));
    assert_eq!(get_merchant_balance(&v, &MERCHANT), 0);
    assert_eq!(withdraw_merchant_funds(&mut v, MERCHANT, 1, 1), Err(Error::NotFound));
    assert_eq!(v.actions.len(), 0);
}

#[test]
fn a_credit_stays_within_the_range_of_amounts() {
    let mut v = vault();
    let kind = BillingChargeKind::Interval;
    assert_eq!(credit_merchant_balance(&mut v, &MERCHANT, -1, kind), Err(Error::Underflow));
    assert_eq!(credit_merchant_balance(&mut v, &MERCHANT, i128::MAX, kind), Ok(()));
    assert_eq!(credit_merchant_balance(&mut v, &MERCHANT, 1, kind), Err(Error::Overflow));
    assert_eq!(get_merchant_balance(&v, &MERCHANT), i128::MAX);
    // The balance has room again, but what has accrued has none.
    v.merchant_balances.set(AccountToken { account: MERCHANT, token: TOKEN }, 0);
    assert_eq!(credit_merchant_balance(&mut v, &MERCHANT, 1, kind), Err(Error::Overflow));
    assert_eq!(get_merchant_balance(&v, &MERCHANT), 1);
    assert_eq!(
        get_merchant_token_earnings(&v, &MERCHANT, &TOKEN).accruals.interval,
        i128::MAX
    );
}

#[test]
fn a_withdrawal_moves_the_balance_out() {
    let mut v = earning(100);
    assert_eq!(withdraw_merchant_funds(&mut v, MERCHANT, 60, 100), Ok(()));
    assert_eq!(get_merchant_balance(&v, &MERCHANT), 40);
    assert_eq!(get_total_accounted(&v, &TOKEN), 40);
    assert_eq!(get_merchant_token_earnings(&v, &MERCHANT, &TOKEN).withdrawals, 60);
    assert_eq!(v.actions.len(), 3);
    assert_eq!(v.actions[0], Action::RequireAuth(MERCHANT));
    match v.actions[1] {
        Action::Publish(Event::MerchantWithdrawal(event)) => {
            assert_eq!(event.amount, 60);
            assert_eq!(event.remaining_balance, 40);
        }
        _ => panic!("another action"),
    }
    assert_eq!(
        v.actions[2],
        Action::Transfer(Transfer { token: TOKEN, from: contract(100), to: MERCHANT, amount: 60 })
    );
}

#[test]
fn withdrawals_are_checked() {
    let mut v = earning(100);
    assert_eq!(withdraw_merchant_funds(&mut v, MERCHANT, 0, 100), Err(Error::InvalidAmount));
    assert_eq!(withdraw_merchant_funds(&mut v, MERCHANT, -1, 100), Err(Error::InvalidAmount));
    let unknown = contract(201);
    assert_eq!(
        withdraw_merchant_funds_for_token(&mut v, MERCHANT, unknown, 1, 100),
        Err(Error::InvalidInput)
    );
    assert_eq!(withdraw_merchant_funds(&mut v, account(4), 1, 100), Err(Error::NotFound));
    assert_eq!(
        withdraw_merchant_funds(&mut v, MERCHANT, 101, 1000),
        Err(Error::InsufficientBalance)
    );
    assert_eq!(
        withdraw_merchant_funds(&mut v, MERCHANT, 100, 99),
        Err(Error::InsufficientBalance)
    );
    assert_eq!(get_merchant_balance(&v, &MERCHANT), 100);
    assert_eq!(v.events().len(), 0);
    // What needs no look at the vault's holdings is told beforehand.
    let check = |who, token, amount| check_merchant_withdrawal(&v, &who, &token, amount);
    assert_eq!(check(MERCHANT, TOKEN, 0), Err(Error::InvalidAmount));
    assert_eq!(check(MERCHANT, unknown, 1), Err(Error::InvalidInput));
    assert_eq!(check(account(4), TOKEN, 1), Err(Error::NotFound));
    assert_eq!(check(MERCHANT, TOKEN, 101), Err(Error::InsufficientBalance));
    assert_eq!(check(MERCHANT, TOKEN, 100), Ok(()));
}

#[test]
fn withdrawals_in_another_token() {
    let mut v = vault();
    let other = contract(201);
    add_accepted_token(&mut v, account(1), other, 6).unwrap();
    credit_merchant_balance_for_token(&mut v, &MERCHANT, &other, 7, BillingChargeKind::Usage)
        .unwrap();
    add_total_accounted(&mut v, &other, 7).unwrap();
    assert_eq!(withdraw_merchant_funds_for_token(&mut v, MERCHANT, other, 7, 7), Ok(()));
    assert_eq!(get_merchant_balance_by_token(&v, &MERCHANT, &other), 0);
    assert_eq!(
        withdraw_merchant_funds_for_token(&mut v, MERCHANT, other, 1, 7),
        Err(Error::NotFound)
    );
}

#[test]
fn a_withdrawal_reports_overflow_in_the_books() {
    let mut v = earning(100);
    v.total_accounted.set(TOKEN, i128::MIN);
    assert_eq!(withdraw_merchant_funds(&mut v, MERCHANT, 1, 100), Err(Error::Underflow));
    let mut v = earning(100);
    let key = AccountToken { account: MERCHANT, token: TOKEN };
    let mut earnings = get_merchant_token_earnings(&v, &MERCHANT, &TOKEN);
    earnings.withdrawals = i128::MAX;
    v.merchant_earnings.set(key, earnings);
    assert_eq!(withdraw_merchant_funds(&mut v, MERCHANT, 1, 100), Err(Error::Overflow));
    assert_eq!(v.events().len(), 0);
}

#[test]
fn a_refund_pays_the_subscriber() {
    let mut v = earning(100);
    let subscriber = account(2);
    assert_eq!(merchant_refund(&mut v, MERCHANT, subscriber, TOKEN, 30), Ok(()));
    assert_eq!(get_merchant_balance(&v, &MERCHANT), 70);
    assert_eq!(get_merchant_token_earnings(&v, &MERCHANT, &TOKEN).refunds, 30);
    // A refund by a merchant leaves what the vault accounts for.
    assert_eq!(get_total_accounted(&v, &TOKEN), 100);
    assert_eq!(
        v.actions.last(),
        Some(&Action::Transfer(Transfer {
            token: TOKEN,
            from: contract(100),
            to: subscriber,
            amount: 30,
        }))
    );
    assert_eq!(v.events()[0].name(), "merchant_refund");
}

#[test]
fn refunds_are_checked() {
    let mut v = earning(100);
    let subscriber = account(2);
    assert_eq!(merchant_refund(&mut v, MERCHANT, subscriber, TOKEN, 0), Err(Error::InvalidAmount));
    assert_eq!(
        merchant_refund(&mut v, account(4), subscriber, TOKEN, 1),
        Err(Error::NotFound)
    );
    assert_eq!(
        merchant_refund(&mut v, MERCHANT, subscriber, TOKEN, 101),
        Err(Error::InsufficientBalance)
    );
    let mut earnings = get_merchant_token_earnings(&v, &MERCHANT, &TOKEN);
    earnings.refunds = i128::MAX;
    v.merchant_earnings.set(AccountToken { account: MERCHANT, token: TOKEN }, earnings);
    assert_eq!(merchant_refund(&mut v, MERCHANT, subscriber, TOKEN, 1), Err(Error::Overflow));
    assert_eq!(v.events().len(), 0);
}

#[test]
fn the_reconciliation_explains_the_balance() {
    let mut v = earning(100);
    credit_merchant_balance(&mut v, &MERCHANT, 20, BillingChargeKind::OneOff).unwrap();
    withdraw_merchant_funds(&mut v, MERCHANT, 60, 100).unwrap();
    merchant_refund(&mut v, MERCHANT, account(2), TOKEN, 15).unwrap();
    assert_eq!(
        get_reconciliation_snapshot(&v, &MERCHANT),
        vec![TokenReconciliationSnapshot {
            token: TOKEN,
            total_accruals: 120,
            total_withdrawals: 60,
            total_refunds: 15,
            computed_balance: 45,
        }]
    );
    assert_eq!(get_merchant_balance(&v, &MERCHANT), 45);
    assert_eq!(get_reconciliation_snapshot(&v, &account(4)).len(), 0);
}

#[test]
fn the_reconciliation_counts_an_overflow_as_zero() {
    let mut v = earning(100);
    v.merchant_earnings.set(
        AccountToken { account: MERCHANT, token: TOKEN },
        TokenEarnings {
            accruals: AccruedTotals { interval: i128::MAX, usage: 1, one_off: 9 },
            withdrawals: 4,
            refunds: 2,
        },
    );
    let snapshot = get_reconciliation_snapshot(&v, &MERCHANT);
    assert_eq!(snapshot[0].total_accruals, 9);
    assert_eq!(snapshot[0].computed_balance, 3);
}
