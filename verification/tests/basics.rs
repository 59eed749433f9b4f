//! Data types, arithmetic, the state machine, tables, the blocklist and statements.

use subscription_vault::blocklist::{is_blocklisted, require_not_blocklisted};
use subscription_vault::queries::get_subscription;
use subscription_vault::safe_math::{
    next_count, safe_add, safe_add_balance, safe_sub, validate_non_negative,
};
use subscription_vault::state_machine::validate_status_transition;
use subscription_vault::statements::append_statement;
use subscription_vault::table::Table;
use subscription_vault::types::{
    Address, BillingChargeKind, Error, InsufficientBalanceError, StatementId, Subscription,
    SubscriptionStatus,
};
use subscription_vault::vault::Vault;

fn account(key: u128) -> Address {
    Address { is_contract: false, key_high: 0, key_low: key }
}

#[test]
fn error_codes() {
    let codes = [
        (Error::InvalidStatusTransition, 400),
        (Error::Unauthorized, 401),
        (Error::BelowMinimumTopup, 402),
        (Error::Forbidden, 403),
        (Error::NotFound, 404),
        (Error::SubscriptionExpired, 410),
        (Error::SubscriptionLimitReached, 429),
        (Error::IntervalNotElapsed, 1001),
        (Error::NotActive, 1002),
        (Error::InsufficientBalance, 1003),
        (Error::UsageNotEnabled, 1004),
        (Error::InsufficientPrepaidBalance, 1005),
        (Error::InvalidAmount, 1006),
        (Error::Replay, 1007),
        (Error::InvalidRecoveryAmount, 1008),
        (Error::EmergencyStopActive, 1009),
        (Error::Underflow, 1010),
        (Error::RecoveryNotAllowed, 1011),
        (Error::Overflow, 1012),
        (Error::NotInitialized, 1013),
        (Error::InvalidExportLimit, 1014),
        (Error::InvalidInput, 1015),
        (Error::Reentrancy, 1016),
        (Error::LifetimeCapReached, 1017),
        (Error::AlreadyInitialized, 1018),
        (Error::MerchantPaused, 1019),
        (Error::MetadataKeyLimitReached, 1023),
        (Error::MetadataKeyTooLong, 1024),
        (Error::MetadataValueTooLong, 1025),
        (Error::SubscriberBlocklisted, 1026),
        (Error::OracleNotConfigured, 1027),
        (Error::OraclePriceUnavailable, 1028),
        (Error::OraclePriceStale, 1029),
        (Error::OraclePriceInvalid, 1030),
        (Error::MaxConcurrentSubscriptionsReached, 1031),
        (Error::CreditLimitExceeded, 1032),
        (Error::RateLimitExceeded, 1033),
        (Error::UsageCapExceeded, 1034),
        (Error::BurstLimitExceeded, 1035),
        (Error::SelfRotation, 1036),
        (Error::InvalidNewAdmin, 1037),
    ];
    for (i, (error, code)) in codes.iter().enumerate() {
        assert_eq!(error.to_code(), *code);
        for (_, other) in &codes[i + 1..] {
            assert_ne!(code, other);
        }
    }
}

#[test]
fn shortfall_is_what_is_missing() {
    let error = InsufficientBalanceError::new(30, 100);
    assert_eq!(error.available, 30);
    assert_eq!(error.required, 100);
    assert_eq!(error.shortfall(), 70);
    assert_eq!(InsufficientBalanceError::new(100, 30).shortfall(), -70);
}

fn subscription(expires_at: Option<u64>) -> Subscription {
    Subscription {
        subscriber: account(2),
        merchant: account(3),
        token: account(4),
        amount: 10,
        interval_seconds: 60,
        last_payment_timestamp: 0,
        status: SubscriptionStatus::Active,
        prepaid_balance: 0,
        usage_enabled: false,
        lifetime_cap: None,
        lifetime_charged: 0,
        start_time: 0,
        expires_at,
        grace_start_timestamp: None,
    }
}

#[test]
fn a_subscription_expires_at_its_timestamp() {
    assert!(!subscription(Some(100)).is_expired(99));
    assert!(subscription(Some(100)).is_expired(100));
    assert!(subscription(Some(100)).is_expired(101));
    assert!(!subscription(None).is_expired(u64::MAX));
}

#[test]
fn arithmetic_reports_overflow() {
    assert_eq!(safe_add(2, 3), Ok(5));
    assert_eq!(safe_add(i128::MAX, 1), Err(Error::Overflow));
    assert_eq!(safe_add(i128::MIN, -1), Err(Error::Overflow));
    assert_eq!(safe_sub(2, 3), Ok(-1));
    assert_eq!(safe_sub(i128::MIN, 1), Err(Error::Underflow));
    assert_eq!(safe_add_balance(2, 3), Ok(5));
    assert_eq!(safe_add_balance(2, -3), Err(Error::Underflow));
    assert_eq!(safe_add_balance(i128::MAX, 1), Err(Error::Overflow));
    assert_eq!(validate_non_negative(0), Ok(()));
    assert_eq!(validate_non_negative(-1), Err(Error::Underflow));
    assert_eq!(next_count(0), 1);
    assert_eq!(next_count(u32::MAX), 0);
}

#[test]
fn the_state_machine() {
    let all = [
        SubscriptionStatus::Active,
        SubscriptionStatus::Paused,
        SubscriptionStatus::Cancelled,
        SubscriptionStatus::InsufficientBalance,
        SubscriptionStatus::GracePeriod,
        SubscriptionStatus::Expired,
        SubscriptionStatus::Archived,
    ];
    let allowed = [
        (SubscriptionStatus::Active, SubscriptionStatus::Paused),
        (SubscriptionStatus::Active, SubscriptionStatus::Cancelled),
        (SubscriptionStatus::Active, SubscriptionStatus::InsufficientBalance),
        (SubscriptionStatus::Active, SubscriptionStatus::GracePeriod),
        (SubscriptionStatus::Active, SubscriptionStatus::Expired),
        (SubscriptionStatus::Paused, SubscriptionStatus::Active),
        (SubscriptionStatus::Paused, SubscriptionStatus::Cancelled),
        (SubscriptionStatus::Paused, SubscriptionStatus::Expired),
        (SubscriptionStatus::InsufficientBalance, SubscriptionStatus::Active),
        (SubscriptionStatus::InsufficientBalance, SubscriptionStatus::Cancelled),
        (SubscriptionStatus::InsufficientBalance, SubscriptionStatus::Expired),
        (SubscriptionStatus::GracePeriod, SubscriptionStatus::Active),
        (SubscriptionStatus::GracePeriod, SubscriptionStatus::InsufficientBalance),
        (SubscriptionStatus::GracePeriod, SubscriptionStatus::Cancelled),
        (SubscriptionStatus::GracePeriod, SubscriptionStatus::Expired),
        (SubscriptionStatus::Cancelled, SubscriptionStatus::Archived),
        (SubscriptionStatus::Expired, SubscriptionStatus::Archived),
    ];
    for from in all {
        for to in all {
            let expected = if from == to || allowed.contains(&(from, to)) {
                Ok(())
            } else {
                Err(Error::InvalidStatusTransition)
            };
            assert_eq!(validate_status_transition(&from, &to), expected);
        }
    }
}

#[test]
fn a_table_keeps_the_last_value_of_a_key() {
    let mut table: Table<u32, i128> = Table::new();
    assert!(table.get(1).is_none());
    table.set(1, 10);
    table.set(2, 20);
    table.set(1, 11);
    assert_eq!(table.get(1), Some(&11));
    assert_eq!(table.copied(2), Some(20));
    assert!(table.has(2));
    table.remove(1);
    assert!(!table.has(1));
    assert_eq!(table.copied(1), None);
    assert_eq!(table.copied(2), Some(20));
    table.remove(7);
    assert_eq!(table.copied(2), Some(20));
}

#[test]
fn the_blocklist() {
    let mut v = Vault::new(account(100), 0);
    assert!(!is_blocklisted(&v, &account(2)));
    v.blocklist.set(account(2), true);
    assert!(is_blocklisted(&v, &account(2)));
    assert_eq!(require_not_blocklisted(&v, &account(2)), Err(Error::SubscriberBlocklisted));
    assert_eq!(require_not_blocklisted(&v, &account(3)), Ok(()));
    v.blocklist.set(account(2), false);
    assert_eq!(require_not_blocklisted(&v, &account(2)), Ok(()));
}

#[test]
fn a_missing_subscription_is_not_found() {
    let mut v = Vault::new(account(100), 0);
    assert_eq!(get_subscription(&v, 0), Err(Error::NotFound));
    v.put_subscription(0, subscription(None));
    assert_eq!(get_subscription(&v, 0), Ok(subscription(None)));
}

#[test]
fn statements_are_numbered_per_subscription() {
    let mut v = Vault::new(account(100), 77);
    for amount in [5, 6] {
        append_statement(&mut v, 3, amount, account(9), BillingChargeKind::Usage, 10, 20).unwrap();
    }
    append_statement(&mut v, 4, 7, account(9), BillingChargeKind::Interval, 10, 20).unwrap();
    let row = v.statements.copied(StatementId { subscription_id: 3, sequence: 1 }).unwrap();
    assert_eq!(row.subscription_id, 3);
    assert_eq!(row.sequence, 1);
    assert_eq!(row.amount, 6);
    assert_eq!(row.merchant, account(9));
    assert_eq!(row.kind, BillingChargeKind::Usage);
    assert_eq!(row.charged_at, 77);
    assert_eq!(row.period_start, 10);
    assert_eq!(row.period_end, 20);
    assert_eq!(v.statement_counts.copied(3), Some(2));
    assert_eq!(v.statement_counts.copied(4), Some(1));
}

#[test]
fn statements_run_out_of_numbers() {
    let mut v = Vault::new(account(100), 0);
    v.statement_counts.set(3, u32::MAX);
    let result = append_statement(&mut v, 3, 5, account(9), BillingChargeKind::OneOff, 0, 0);
    assert_eq!(result, Err(Error::Overflow));
    assert_eq!(v.statement_counts.copied(3), Some(u32::MAX));
}
