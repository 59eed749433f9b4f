//! The life of a subscription.

use subscription_vault::accounting::get_total_accounted;
use subscription_vault::admin::{add_accepted_token, do_init, do_set_min_topup};
use subscription_vault::events::{Action, Event, Transfer};
use subscription_vault::merchant::{get_merchant_balance, get_merchant_token_earnings};
use subscription_vault::queries::get_subscription;
use subscription_vault::subscription::{
    do_cancel_subscription, do_charge_one_off, do_cleanup_subscription,
    do_configure_usage_limits, do_create_subscription, do_create_subscription_with_token,
    do_deposit_funds, do_partial_refund, do_pause_subscription, do_resume_subscription,
    do_withdraw_subscriber_funds, next_id,
};
use subscription_vault::types::{
    AccountToken, Address, BillingChargeKind, Error, StatementId, Subscription,
    SubscriptionStatus, UsageLimits,
};
use subscription_vault::vault::Vault;

const ADMIN: Address = Address { is_contract: false, key_high: 0, key_low: 1 };
const SUBSCRIBER: Address = Address { is_contract: false, key_high: 0, key_low: 2 };
const MERCHANT: Address = Address { is_contract: false, key_high: 0, key_low: 3 };
const STRANGER: Address = Address { is_contract: false, key_high: 0, key_low: 9 };
const VAULT: Address = Address { is_contract: true, key_high: 0, key_low: 100 };
const TOKEN: Address = Address { is_contract: true, key_high: 0, key_low: 200 };
const OTHER_TOKEN: Address = Address { is_contract: true, key_high: 0, key_low: 201 };

fn vault() -> Vault {
    let mut vault = Vault::new(VAULT, 1_000);
    do_init(&mut vault, TOKEN, 7, ADMIN, 10, 600).unwrap();
    vault.actions.clear();
    vault
}

fn create(v: &mut Vault, cap: Option<i128>, expires_at: Option<u64>) -> u32 {
    do_create_subscription(v, SUBSCRIBER, MERCHANT, 100, 60, true, cap, expires_at).unwrap()
}

/// A vault with one subscription that holds `balance`.
fn funded(balance: i128, cap: Option<i128>, expires_at: Option<u64>) -> Vault {
    let mut v = vault();
    let id = create(&mut v, cap, expires_at);
    do_deposit_funds(&mut v, id, SUBSCRIBER, balance).unwrap();
    v.actions.clear();
    v
}

fn sub(v: &Vault) -> Subscription {
    get_subscription(v, 0).unwrap()
}

fn set_status(v: &mut Vault, status: SubscriptionStatus) {
    let mut changed = sub(v);
    changed.status = status;
    v.put_subscription(0, changed);
}

#[test]
fn ids_are_given_out_in_order() {
    let mut v = vault();
    assert_eq!(next_id(&mut v), 0);
    assert_eq!(next_id(&mut v), 1);
    assert_eq!(create(&mut v, None, None), 2);
    v.next_id = u32::MAX;
    assert_eq!(next_id(&mut v), u32::MAX);
    assert_eq!(v.next_id, 0);
}

#[test]
fn a_new_subscription_is_active_and_empty() {
    let mut v = vault();
    let id = create(&mut v, Some(500), Some(9_000));
    assert_eq!(
        get_subscription(&v, id),
        Ok(Subscription {
            subscriber: SUBSCRIBER,
            merchant: MERCHANT,
            token: TOKEN,
            amount: 100,
            interval_seconds: 60,
            last_payment_timestamp: 1_000,
            status: SubscriptionStatus::Active,
            prepaid_balance: 0,
            usage_enabled: true,
            lifetime_cap: Some(500),
            lifetime_charged: 0,
            start_time: 1_000,
            expires_at: Some(9_000),
            grace_start_timestamp: None,
        })
    );
    let second = create(&mut v, None, None);
    assert_eq!(v.merchant_subs.get(MERCHANT), Some(&vec![id, second]));
    assert_eq!(v.token_subs.get(TOKEN), Some(&vec![id, second]));
    assert_eq!(v.actions[0], Action::RequireAuth(SUBSCRIBER));
}

#[test]
fn creation_is_checked() {
    let mut v = vault();
    let mut make = |amount, interval, cap, token| {
        do_create_subscription_with_token(
            &mut v, SUBSCRIBER, MERCHANT, token, amount, interval, false, cap, None,
        )
    };
    assert_eq!(make(-1, 60, None, TOKEN), Err(Error::Underflow));
    assert_eq!(make(0, 60, None, TOKEN), Err(Error::InvalidAmount));
    assert_eq!(make(1, 59, None, TOKEN), Err(Error::InvalidInput));
    assert_eq!(make(1, 60, None, OTHER_TOKEN), Err(Error::InvalidInput));
    assert_eq!(make(5, 60, Some(0), TOKEN), Err(Error::InvalidAmount));
    assert_eq!(make(5, 60, Some(4), TOKEN), Err(Error::InvalidInput));
    assert_eq!(make(5, 60, Some(5), TOKEN), Ok(0));
    assert_eq!(v.events().len(), 1);
}

#[test]
fn creation_ends_with_the_last_id() {
    let mut v = vault();
    v.next_id = u32::MAX - 1;
    assert_eq!(create(&mut v, None, None), u32::MAX - 1);
    let result = do_create_subscription(&mut v, SUBSCRIBER, MERCHANT, 1, 60, false, None, None);
    assert_eq!(result, Err(Error::SubscriptionLimitReached));
}

#[test]
fn creation_needs_a_default_token() {
    let mut v = Vault::new(VAULT, 0);
    let result = do_create_subscription(&mut v, SUBSCRIBER, MERCHANT, 1, 60, false, None, None);
    assert_eq!(result, Err(Error::NotFound));
    assert_eq!(v.actions.len(), 0);
}

#[test]
fn creation_in_another_token() {
    let mut v = vault();
    add_accepted_token(&mut v, ADMIN, OTHER_TOKEN, 6).unwrap();
    let id = do_create_subscription_with_token(
        &mut v, SUBSCRIBER, MERCHANT, OTHER_TOKEN, 5, 60, false, None, None,
    )
    .unwrap();
    assert_eq!(get_subscription(&v, id).unwrap().token, OTHER_TOKEN);
    assert_eq!(v.token_subs.get(OTHER_TOKEN), Some(&vec![id]));
}

#[test]
fn blocked_subscribers_cannot_take_part() {
    let mut v = funded(200, None, None);
    v.blocklist.set(SUBSCRIBER, true);
    assert_eq!(
        do_create_subscription(&mut v, SUBSCRIBER, MERCHANT, 1, 60, false, None, None),
        Err(Error::SubscriberBlocklisted)
    );
    assert_eq!(
        do_deposit_funds(&mut v, 0, SUBSCRIBER, 100),
        Err(Error::SubscriberBlocklisted)
    );
    do_pause_subscription(&mut v, 0, SUBSCRIBER).unwrap();
    assert_eq!(
        do_resume_subscription(&mut v, 0, SUBSCRIBER),
        Err(Error::SubscriberBlocklisted)
    );
    // The merchant can still resume.
    assert_eq!(do_resume_subscription(&mut v, 0, MERCHANT), Ok(()));
}

#[test]
fn a_deposit_moves_tokens_into_the_vault() {
    let mut v = vault();
    create(&mut v, None, None);
    v.actions.clear();
    assert_eq!(do_deposit_funds(&mut v, 0, SUBSCRIBER, 150), Ok(()));
    assert_eq!(sub(&v).prepaid_balance, 150);
    assert_eq!(get_total_accounted(&v, &TOKEN), 150);
    assert_eq!(v.actions[0], Action::RequireAuth(SUBSCRIBER));
    assert_eq!(
        v.actions[1],
        Action::Transfer(Transfer { token: TOKEN, from: SUBSCRIBER, to: VAULT, amount: 150 })
    );
    assert_eq!(v.actions.len(), 3);
}

#[test]
fn deposits_are_checked() {
    let mut v = funded(200, None, None);
    assert_eq!(do_deposit_funds(&mut v, 0, SUBSCRIBER, 9), Err(Error::BelowMinimumTopup));
    assert_eq!(do_deposit_funds(&mut v, 7, SUBSCRIBER, 10), Err(Error::NotFound));
    do_set_min_topup(&mut v, ADMIN, -5).unwrap();
    assert_eq!(do_deposit_funds(&mut v, 0, SUBSCRIBER, -1), Err(Error::Underflow));
    assert_eq!(do_deposit_funds(&mut v, 0, SUBSCRIBER, i128::MAX), Err(Error::Overflow));
    assert_eq!(sub(&v).prepaid_balance, 200);
    v.total_accounted.set(TOKEN, i128::MAX);
    assert_eq!(do_deposit_funds(&mut v, 0, SUBSCRIBER, 1), Err(Error::Overflow));
    let mut empty = Vault::new(VAULT, 0);
    assert_eq!(do_deposit_funds(&mut empty, 0, SUBSCRIBER, 10), Err(Error::NotInitialized));
}

#[test]
fn anyone_may_deposit() {
    let mut v = funded(200, None, None);
    assert_eq!(do_deposit_funds(&mut v, 0, STRANGER, 50), Ok(()));
    assert_eq!(sub(&v).prepaid_balance, 250);
    match v.events().last() {
        Some(Event::FundsDeposited(event)) => assert_eq!(event.subscriber, STRANGER),
        _ => panic!("another event"),
    }
}

#[test]
fn a_deposit_recovers_a_subscription_that_ran_out() {
    for status in [SubscriptionStatus::InsufficientBalance, SubscriptionStatus::GracePeriod] {
        let mut v = funded(20, None, None);
        set_status(&mut v, status);
        assert_eq!(do_deposit_funds(&mut v, 0, SUBSCRIBER, 79), Ok(()));
        assert_eq!(sub(&v).status, status);
        assert_eq!(v.events().len(), 1);
        v.actions.clear();
        assert_eq!(do_deposit_funds(&mut v, 0, SUBSCRIBER, 10), Ok(()));
        assert_eq!(sub(&v).status, SubscriptionStatus::Active);
        let names: Vec<&str> = v.events().iter().map(|e| e.name()).collect();
        assert_eq!(names, vec!["deposited", "recovery_ready", "resumed"]);
        match v.events()[1] {
            Event::SubscriptionRecoveryReady(event) => {
                assert_eq!(event.prepaid_balance, 109);
                assert_eq!(event.required_amount, 100);
                assert_eq!(event.subscriber, SUBSCRIBER);
                assert_eq!(event.timestamp, 1_000);
            }
            _ => panic!("another event"),
        }
    }
}

#[test]
fn a_late_deposit_is_refused_without_a_trace() {
    for status in [
        SubscriptionStatus::Active,
        SubscriptionStatus::Paused,
        SubscriptionStatus::InsufficientBalance,
        SubscriptionStatus::GracePeriod,
        SubscriptionStatus::Expired,
    ] {
        let mut v = funded(200, None, Some(2_000));
        set_status(&mut v, status);
        let before = sub(&v);
        v.timestamp = 2_000;
        assert_eq!(do_deposit_funds(&mut v, 0, SUBSCRIBER, 50), Err(Error::SubscriptionExpired));
        assert_eq!(sub(&v), before);
        assert_eq!(get_total_accounted(&v, &TOKEN), 200);
        assert_eq!(v.actions, vec![Action::RequireAuth(SUBSCRIBER)]);
    }
}

#[test]
fn an_ended_subscription_cannot_expire() {
    let mut v = funded(200, None, Some(2_000));
    do_cancel_subscription(&mut v, 0, SUBSCRIBER).unwrap();
    v.timestamp = 2_000;
    assert_eq!(
        do_deposit_funds(&mut v, 0, SUBSCRIBER, 50),
        Err(Error::InvalidStatusTransition)
    );
    assert_eq!(sub(&v).status, SubscriptionStatus::Cancelled);
}

#[test]
fn an_expired_subscription_cannot_be_moved() {
    let mut v = funded(200, None, Some(2_000));
    v.timestamp = 2_000;
    for result in [
        do_pause_subscription(&mut v, 0, SUBSCRIBER),
        do_resume_subscription(&mut v, 0, SUBSCRIBER),
        do_cancel_subscription(&mut v, 0, SUBSCRIBER),
        do_charge_one_off(&mut v, 0, MERCHANT, 10),
    ] {
        assert_eq!(result, Err(Error::SubscriptionExpired));
    }
    assert_eq!(do_withdraw_subscriber_funds(&mut v, 0, SUBSCRIBER), Ok(()));
    assert_eq!(sub(&v).prepaid_balance, 0);
}

#[test]
fn only_the_parties_move_a_subscription() {
    let mut v = funded(200, None, None);
    for result in [
        do_pause_subscription(&mut v, 0, STRANGER),
        do_resume_subscription(&mut v, 0, STRANGER),
        do_cancel_subscription(&mut v, 0, STRANGER),
    ] {
        assert_eq!(result, Err(Error::Forbidden));
    }
    for result in [
        do_pause_subscription(&mut v, 5, SUBSCRIBER),
        do_resume_subscription(&mut v, 5, SUBSCRIBER),
        do_cancel_subscription(&mut v, 5, SUBSCRIBER),
        do_cleanup_subscription(&mut v, 5, SUBSCRIBER),
        do_withdraw_subscriber_funds(&mut v, 5, SUBSCRIBER),
        do_charge_one_off(&mut v, 5, MERCHANT, 10),
    ] {
        assert_eq!(result, Err(Error::NotFound));
    }
    assert_eq!(v.events().len(), 0);
}

#[test]
fn pausing_is_idempotent_and_resuming_undoes_it() {
    let mut v = funded(200, None, None);
    let before = sub(&v);
    assert_eq!(do_pause_subscription(&mut v, 0, SUBSCRIBER), Ok(()));
    assert_eq!(sub(&v).status, SubscriptionStatus::Paused);
    assert_eq!(do_pause_subscription(&mut v, 0, MERCHANT), Ok(()));
    assert_eq!(v.events().len(), 1);
    assert_eq!(do_resume_subscription(&mut v, 0, SUBSCRIBER), Ok(()));
    assert_eq!(sub(&v), before);
    assert_eq!(do_resume_subscription(&mut v, 0, SUBSCRIBER), Ok(()));
    assert_eq!(v.events().len(), 2);
}

#[test]
fn resuming_needs_enough_for_the_next_charge() {
    for status in [SubscriptionStatus::InsufficientBalance, SubscriptionStatus::GracePeriod] {
        let mut v = funded(99, None, None);
        set_status(&mut v, status);
        assert_eq!(
            do_resume_subscription(&mut v, 0, SUBSCRIBER),
            Err(Error::InsufficientBalance)
        );
        let mut v = funded(100, None, None);
        set_status(&mut v, status);
        assert_eq!(do_resume_subscription(&mut v, 0, SUBSCRIBER), Ok(()));
        assert_eq!(sub(&v).status, SubscriptionStatus::Active);
    }
    // A paused subscription needs nothing.
    let mut v = funded(10, None, None);
    set_status(&mut v, SubscriptionStatus::Paused);
    assert_eq!(do_resume_subscription(&mut v, 0, SUBSCRIBER), Ok(()));
}

#[test]
fn a_cancelled_subscription_stays_cancelled() {
    let mut v = funded(200, None, None);
    assert_eq!(do_cancel_subscription(&mut v, 0, MERCHANT), Ok(()));
    for result in [
        do_pause_subscription(&mut v, 0, SUBSCRIBER),
        do_resume_subscription(&mut v, 0, SUBSCRIBER),
    ] {
        assert_eq!(result, Err(Error::InvalidStatusTransition));
    }
    // Cancelling again is allowed.
    assert_eq!(do_cancel_subscription(&mut v, 0, SUBSCRIBER), Ok(()));
    set_status(&mut v, SubscriptionStatus::Archived);
    assert_eq!(
        do_cancel_subscription(&mut v, 0, SUBSCRIBER),
        Err(Error::InvalidStatusTransition)
    );
}

#[test]
fn a_one_off_charge_pays_the_merchant() {
    let mut v = funded(200, None, None);
    assert_eq!(do_charge_one_off(&mut v, 0, MERCHANT, 30), Ok(()));
    assert_eq!(sub(&v).prepaid_balance, 170);
    assert_eq!(sub(&v).lifetime_charged, 30);
    assert_eq!(get_merchant_balance(&v, &MERCHANT), 30);
    assert_eq!(get_merchant_token_earnings(&v, &MERCHANT, &TOKEN).accruals.one_off, 30);
    assert_eq!(get_total_accounted(&v, &TOKEN), 200);
    let row = v.statements.copied(StatementId { subscription_id: 0, sequence: 0 }).unwrap();
    assert_eq!(row.amount, 30);
    assert_eq!(row.kind, BillingChargeKind::OneOff);
    assert_eq!((row.period_start, row.period_end), (1_000, 1_000));
    assert_eq!(v.actions[0], Action::RequireAuth(MERCHANT));
    match v.events()[0] {
        Event::OneOffCharged(event) => {
            assert_eq!(event.merchant, MERCHANT);
            assert_eq!(event.token, TOKEN);
            assert_eq!(event.amount, 30);
            assert_eq!(event.remaining_balance, 170);
            assert_eq!(event.timestamp, 1_000);
        }
        _ => panic!("another event"),
    }
    // A paused subscription can be charged too.
    do_pause_subscription(&mut v, 0, MERCHANT).unwrap();
    assert_eq!(do_charge_one_off(&mut v, 0, MERCHANT, 70), Ok(()));
    assert_eq!(sub(&v).prepaid_balance, 100);
    assert_eq!(v.statement_counts.copied(0), Some(2));
}

#[test]
fn one_off_charges_are_checked() {
    let mut v = funded(200, Some(150), None);
    assert_eq!(do_charge_one_off(&mut v, 0, STRANGER, 10), Err(Error::Unauthorized));
    assert_eq!(do_charge_one_off(&mut v, 0, MERCHANT, 0), Err(Error::InvalidAmount));
    assert_eq!(
        do_charge_one_off(&mut v, 0, MERCHANT, 201),
        Err(Error::InsufficientPrepaidBalance)
    );
    assert_eq!(do_charge_one_off(&mut v, 0, MERCHANT, 151), Err(Error::LifetimeCapReached));
    set_status(&mut v, SubscriptionStatus::GracePeriod);
    assert_eq!(do_charge_one_off(&mut v, 0, MERCHANT, 10), Err(Error::NotActive));
    assert_eq!(v.events().len(), 0);
    assert_eq!(sub(&v).prepaid_balance, 200);
}

#[test]
fn one_off_charges_report_overflow() {
    let mut v = funded(200, None, None);
    let mut charged = sub(&v);
    charged.lifetime_charged = i128::MAX;
    v.put_subscription(0, charged);
    assert_eq!(do_charge_one_off(&mut v, 0, MERCHANT, 1), Err(Error::Overflow));
    let mut v = funded(200, None, None);
    v.merchant_balances.set(AccountToken { account: MERCHANT, token: TOKEN }, i128::MAX);
    assert_eq!(do_charge_one_off(&mut v, 0, MERCHANT, 1), Err(Error::Overflow));
    let mut v = funded(200, None, None);
    v.statement_counts.set(0, u32::MAX);
    assert_eq!(do_charge_one_off(&mut v, 0, MERCHANT, 1), Err(Error::Overflow));
    assert_eq!(v.events().len(), 0);
}

#[test]
fn reaching_the_lifetime_cap_cancels() {
    let mut v = funded(200, Some(150), None);
    assert_eq!(do_charge_one_off(&mut v, 0, MERCHANT, 100), Ok(()));
    assert_eq!(sub(&v).status, SubscriptionStatus::Active);
    v.actions.clear();
    assert_eq!(do_charge_one_off(&mut v, 0, MERCHANT, 50), Ok(()));
    assert_eq!(sub(&v).status, SubscriptionStatus::Cancelled);
    assert_eq!(sub(&v).lifetime_charged, 150);
    let names: Vec<&str> = v.events().iter().map(|e| e.name()).collect();
    assert_eq!(names, vec!["oneoff_ch", "lifetime_cap_reached"]);
    match v.events()[1] {
        Event::LifetimeCapReached(event) => {
            assert_eq!(event.lifetime_cap, 150);
            assert_eq!(event.lifetime_charged, 150);
        }
        _ => panic!("another event"),
    }
    assert_eq!(do_charge_one_off(&mut v, 0, MERCHANT, 1), Err(Error::NotActive));
}

#[test]
fn a_late_charge_is_refused_without_a_trace() {
    let mut v = funded(200, None, Some(2_000));
    let before = sub(&v);
    v.timestamp = 3_000;
    assert_eq!(do_charge_one_off(&mut v, 0, MERCHANT, 1), Err(Error::SubscriptionExpired));
    assert_eq!(sub(&v), before);
    assert_eq!(get_merchant_balance(&v, &MERCHANT), 0);
    assert_eq!(v.actions, vec![Action::RequireAuth(MERCHANT)]);
    // A cancelled subscription cannot expire any more.
    set_status(&mut v, SubscriptionStatus::Cancelled);
    assert_eq!(do_charge_one_off(&mut v, 0, MERCHANT, 1), Err(Error::InvalidStatusTransition));
    assert_eq!(v.events().len(), 0);
}

#[test]
fn ended_subscriptions_are_archived() {
    let mut v = funded(200, None, None);
    assert_eq!(do_cleanup_subscription(&mut v, 0, STRANGER), Err(Error::NotActive));
    do_cancel_subscription(&mut v, 0, SUBSCRIBER).unwrap();
    v.actions.clear();
    assert_eq!(do_cleanup_subscription(&mut v, 0, STRANGER), Ok(()));
    assert_eq!(sub(&v).status, SubscriptionStatus::Archived);
    assert_eq!(sub(&v).prepaid_balance, 200);
    assert_eq!(v.events()[0].name(), "subscription_archived");
    // Without an end date it does not count as ended any more.
    assert_eq!(do_cleanup_subscription(&mut v, 0, STRANGER), Err(Error::NotActive));
    // What it holds can still be withdrawn.
    assert_eq!(do_withdraw_subscriber_funds(&mut v, 0, SUBSCRIBER), Ok(()));
}

#[test]
fn a_subscription_that_ran_out_of_time_is_archived() {
    for status in [
        SubscriptionStatus::Active,
        SubscriptionStatus::Paused,
        SubscriptionStatus::InsufficientBalance,
        SubscriptionStatus::GracePeriod,
        SubscriptionStatus::Expired,
    ] {
        let mut v = funded(200, None, Some(2_000));
        set_status(&mut v, status);
        v.timestamp = 1_999;
        assert_eq!(do_cleanup_subscription(&mut v, 0, STRANGER), Err(Error::NotActive));
        v.timestamp = 2_000;
        assert_eq!(do_cleanup_subscription(&mut v, 0, STRANGER), Ok(()));
        assert_eq!(sub(&v).status, SubscriptionStatus::Archived);
        assert_eq!(v.events().len(), 1);
        // Archiving again changes nothing.
        assert_eq!(do_cleanup_subscription(&mut v, 0, STRANGER), Ok(()));
        assert_eq!(v.events().len(), 1);
    }
}

#[test]
fn the_subscriber_withdraws_everything_once() {
    let mut v = funded(200, None, None);
    assert_eq!(
        do_withdraw_subscriber_funds(&mut v, 0, SUBSCRIBER),
        Err(Error::InvalidStatusTransition)
    );
    do_cancel_subscription(&mut v, 0, SUBSCRIBER).unwrap();
    assert_eq!(do_withdraw_subscriber_funds(&mut v, 0, STRANGER), Err(Error::Forbidden));
    v.actions.clear();
    assert_eq!(do_withdraw_subscriber_funds(&mut v, 0, SUBSCRIBER), Ok(()));
    assert_eq!(sub(&v).prepaid_balance, 0);
    assert_eq!(get_total_accounted(&v, &TOKEN), 0);
    assert_eq!(
        v.actions[1],
        Action::Transfer(Transfer { token: TOKEN, from: VAULT, to: SUBSCRIBER, amount: 200 })
    );
    assert_eq!(
        do_withdraw_subscriber_funds(&mut v, 0, SUBSCRIBER),
        Err(Error::InvalidAmount)
    );
}

#[test]
fn withdrawals_of_subscribers_report_overflow() {
    let mut v = funded(200, None, None);
    do_cancel_subscription(&mut v, 0, SUBSCRIBER).unwrap();
    v.total_accounted.set(TOKEN, i128::MIN);
    v.actions.clear();
    assert_eq!(do_withdraw_subscriber_funds(&mut v, 0, SUBSCRIBER), Err(Error::Underflow));
    assert_eq!(v.events().len(), 0);
}

#[test]
fn the_admin_refunds_a_part() {
    let mut v = funded(200, None, None);
    assert_eq!(do_partial_refund(&mut v, ADMIN, 0, SUBSCRIBER, 50), Ok(()));
    assert_eq!(sub(&v).prepaid_balance, 150);
    assert_eq!(get_total_accounted(&v, &TOKEN), 150);
    assert_eq!(v.actions[0], Action::RequireAuth(ADMIN));
    assert_eq!(
        v.actions[1],
        Action::Transfer(Transfer { token: TOKEN, from: VAULT, to: SUBSCRIBER, amount: 50 })
    );
}

#[test]
fn partial_refunds_are_checked() {
    let mut v = funded(200, None, None);
    assert_eq!(
        do_partial_refund(&mut v, STRANGER, 0, SUBSCRIBER, 50),
        Err(Error::Unauthorized)
    );
    assert_eq!(
        do_partial_refund(&mut v, ADMIN, 0, SUBSCRIBER, 0),
        Err(Error::InvalidAmount)
    );
    assert_eq!(do_partial_refund(&mut v, ADMIN, 5, SUBSCRIBER, 50), Err(Error::NotFound));
    assert_eq!(do_partial_refund(&mut v, ADMIN, 0, STRANGER, 50), Err(Error::Unauthorized));
    assert_eq!(
        do_partial_refund(&mut v, ADMIN, 0, SUBSCRIBER, 201),
        Err(Error::InsufficientBalance)
    );
    v.total_accounted.set(TOKEN, i128::MIN);
    assert_eq!(do_partial_refund(&mut v, ADMIN, 0, SUBSCRIBER, 1), Err(Error::Underflow));
    let mut empty = Vault::new(VAULT, 0);
    assert_eq!(
        do_partial_refund(&mut empty, ADMIN, 0, SUBSCRIBER, 1),
        Err(Error::NotInitialized)
    );
}

#[test]
fn usage_limits_are_configured_by_the_merchant() {
    let mut v = funded(200, None, None);
    assert_eq!(
        do_configure_usage_limits(&mut v, STRANGER, 0, Some(5), 60, 1, Some(10)),
        Err(Error::Forbidden)
    );
    assert_eq!(
        do_configure_usage_limits(&mut v, MERCHANT, 4, Some(5), 60, 1, Some(10)),
        Err(Error::NotFound)
    );
    assert_eq!(
        do_configure_usage_limits(&mut v, MERCHANT, 0, Some(5), 60, 1, Some(0)),
        Err(Error::InvalidAmount)
    );
    assert!(!v.usage_limits.has(0));
    assert_eq!(
        do_configure_usage_limits(&mut v, MERCHANT, 0, Some(5), 60, 1, Some(10)),
        Ok(())
    );
    assert_eq!(
        v.usage_limits.copied(0),
        Some(UsageLimits {
            rate_limit_max_calls: Some(5),
            rate_window_secs: 60,
            burst_min_interval_secs: 1,
            usage_cap_units: Some(10),
        })
    );
    let mut plain = sub(&v);
    plain.usage_enabled = false;
    v.put_subscription(0, plain);
    assert_eq!(
        do_configure_usage_limits(&mut v, MERCHANT, 0, None, 60, 1, None),
        Err(Error::UsageNotEnabled)
    );
}
