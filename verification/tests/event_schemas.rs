//! Every critical state transition publishes a correctly shaped event, and a failed
//! operation publishes no success event.

use subscription_vault::admin::{do_batch_charge, do_init};
use subscription_vault::events::{Event, Subject};
use subscription_vault::merchant::{
    credit_merchant_balance, credit_merchant_balance_for_token, withdraw_merchant_funds,
};
use subscription_vault::queries::get_subscription;
use subscription_vault::subscription::{
    do_cancel_subscription, do_create_subscription, do_deposit_funds, do_partial_refund,
    do_pause_subscription, do_resume_subscription, do_withdraw_subscriber_funds,
};
use subscription_vault::types::{
    Address, BillingChargeKind, ChargeExecutionResult, Error, SubscriptionChargedEvent,
};
use subscription_vault::vault::Vault;

fn address(key: u128) -> Address {
    Address { is_contract: false, key_high: 0, key_low: key }
}

struct TestCtx {
    vault: Vault,
    token: Address,
    admin: Address,
    subscriber: Address,
    merchant: Address,
}

impl TestCtx {
    fn new() -> Self {
        let contract = Address { is_contract: true, key_high: 0, key_low: 100 };
        let token = Address { is_contract: true, key_high: 0, key_low: 200 };
        let admin = address(1);
        let subscriber = address(2);
        let merchant = address(3);
        let mut vault = Vault::new(contract, 0);
        do_init(&mut vault, token, 7, admin, 1_000_000, 0).unwrap();
        vault.timestamp = 1_000;
        Self { vault, token, admin, subscriber, merchant }
    }

    fn create_sub(&mut self) -> u32 {
        do_create_subscription(
            &mut self.vault,
            self.subscriber,
            self.merchant,
            10_000_000,
            3600,
            false,
            None,
            None,
        )
        .unwrap()
    }

    fn deposit(&mut self, sub_id: u32, amount: i128) {
        do_deposit_funds(&mut self.vault, sub_id, self.subscriber, amount).unwrap();
    }

    fn event_count(&self) -> usize {
        self.vault.events().len()
    }

    fn last_event(&self) -> Event {
        *self.vault.events().last().unwrap()
    }
}

/// Charges one interval of a subscription: debits the balance and credits the merchant.
fn charge_one(
    mut vault: Vault,
    id: u32,
    now: u64,
) -> (Vault, Result<ChargeExecutionResult, Error>) {
    let mut sub = match get_subscription(&vault, id) {
        Ok(sub) => sub,
        Err(e) => return (vault, Err(e)),
    };
    if now < sub.last_payment_timestamp + sub.interval_seconds {
        return (vault, Err(Error::IntervalNotElapsed));
    }
    if sub.prepaid_balance < sub.amount {
        return (vault, Ok(ChargeExecutionResult::InsufficientBalance));
    }
    sub.prepaid_balance -= sub.amount;
    sub.lifetime_charged += sub.amount;
    sub.last_payment_timestamp = now;
    vault.put_subscription(id, sub);
    credit_merchant_balance_for_token(
        &mut vault,
        &sub.merchant,
        &sub.token,
        sub.amount,
        BillingChargeKind::Interval,
    )
    .unwrap();
    vault.publish(Event::SubscriptionCharged(SubscriptionChargedEvent {
        subscription_id: id,
        merchant: sub.merchant,
        token: sub.token,
        amount: sub.amount,
        merchant_amount: sub.amount,
        fee_amount: 0,
        remaining_balance: sub.prepaid_balance,
        lifetime_charged: sub.lifetime_charged,
    }));
    (vault, Ok(ChargeExecutionResult::Charged))
}

fn charged_ids(events: &[Event]) -> Vec<u32> {
    events
        .iter()
        .filter_map(|event| match event {
            Event::SubscriptionCharged(e) if event.name() == "charged" => Some(e.subscription_id),
            _ => None,
        })
        .collect()
}

// Deposits.

#[test]
fn test_deposit_emits_funds_deposited_event() {
    let mut ctx = TestCtx::new();
    let sub_id = ctx.create_sub();
    let before = ctx.event_count();

    ctx.deposit(sub_id, 5_000_000);

    assert_eq!(ctx.event_count(), before + 1, "exactly one event on deposit");
    let event = ctx.last_event();
    assert_eq!(event.name(), "deposited");
    assert_eq!(event.subject(), Subject::Id(sub_id));
    match event {
        Event::FundsDeposited(event) => {
            assert_eq!(event.subscription_id, sub_id);
            assert_eq!(event.subscriber, ctx.subscriber);
            assert_eq!(event.amount, 5_000_000);
            assert_eq!(event.prepaid_balance, 5_000_000);
        }
        _ => panic!("another event"),
    }
}

#[test]
fn test_multiple_deposits_emit_cumulative_balance() {
    let mut ctx = TestCtx::new();
    let sub_id = ctx.create_sub();

    ctx.deposit(sub_id, 5_000_000);
    ctx.deposit(sub_id, 3_000_000);

    let balances: Vec<i128> = ctx
        .vault
        .events()
        .iter()
        .filter_map(|event| match event {
            Event::FundsDeposited(e) if event.name() == "deposited" => Some(e.prepaid_balance),
            _ => None,
        })
        .collect();
    assert_eq!(balances.len(), 2);
    assert_eq!(balances[0], 5_000_000);
    assert_eq!(balances[1], 8_000_000);
}

#[test]
fn test_failed_deposit_no_event() {
    let mut ctx = TestCtx::new();
    let sub_id = ctx.create_sub();
    let before = ctx.event_count();

    // The smallest deposit is 1_000_000.
    let result = do_deposit_funds(&mut ctx.vault, sub_id, ctx.subscriber, 1);
    assert!(result.is_err());
    assert_eq!(result, Err(Error::BelowMinimumTopup));
    assert_eq!(ctx.event_count(), before, "no event on failed deposit");
}

// Lifecycle.

#[test]
fn test_create_subscription_emits_event_with_token() {
    let mut ctx = TestCtx::new();
    let before = ctx.event_count();

    let sub_id = ctx.create_sub();

    assert_eq!(ctx.event_count(), before + 1);
    assert_eq!(ctx.last_event().name(), "created");
    match ctx.last_event() {
        Event::SubscriptionCreated(event) => {
            assert_eq!(event.subscription_id, sub_id);
            assert_eq!(event.subscriber, ctx.subscriber);
            assert_eq!(event.merchant, ctx.merchant);
            assert_eq!(event.token, ctx.token);
            assert_eq!(event.amount, 10_000_000);
            assert_eq!(event.interval_seconds, 3600);
            assert_eq!(event.lifetime_cap, None);
            assert_eq!(event.expires_at, None);
        }
        _ => panic!("another event"),
    }
}

#[test]
fn test_pause_subscription_emits_event() {
    let mut ctx = TestCtx::new();
    let sub_id = ctx.create_sub();
    ctx.deposit(sub_id, 10_000_000);
    let before = ctx.event_count();

    do_pause_subscription(&mut ctx.vault, sub_id, ctx.subscriber).unwrap();

    assert_eq!(ctx.event_count(), before + 1);
    assert_eq!(ctx.last_event().name(), "paused");
    match ctx.last_event() {
        Event::SubscriptionPaused(event) => {
            assert_eq!(event.subscription_id, sub_id);
            assert_eq!(event.authorizer, ctx.subscriber);
        }
        _ => panic!("another event"),
    }
}

#[test]
fn test_resume_subscription_emits_event() {
    let mut ctx = TestCtx::new();
    let sub_id = ctx.create_sub();
    ctx.deposit(sub_id, 10_000_000);
    do_pause_subscription(&mut ctx.vault, sub_id, ctx.subscriber).unwrap();
    let before = ctx.event_count();

    do_resume_subscription(&mut ctx.vault, sub_id, ctx.subscriber).unwrap();

    assert_eq!(ctx.event_count(), before + 1);
    assert_eq!(ctx.last_event().name(), "resumed");
    match ctx.last_event() {
        Event::SubscriptionResumed(event) => {
            assert_eq!(event.subscription_id, sub_id);
            assert_eq!(event.authorizer, ctx.subscriber);
        }
        _ => panic!("another event"),
    }
}

#[test]
fn test_cancel_subscription_emits_event_with_refund() {
    let mut ctx = TestCtx::new();
    let sub_id = ctx.create_sub();
    ctx.deposit(sub_id, 10_000_000);
    let before = ctx.event_count();

    do_cancel_subscription(&mut ctx.vault, sub_id, ctx.subscriber).unwrap();

    assert_eq!(ctx.event_count(), before + 1);
    assert_eq!(ctx.last_event().name(), "cancelled");
    match ctx.last_event() {
        Event::SubscriptionCancelled(event) => {
            assert_eq!(event.subscription_id, sub_id);
            assert_eq!(event.authorizer, ctx.subscriber);
            assert_eq!(event.refund_amount, 10_000_000);
        }
        _ => panic!("another event"),
    }
}

#[test]
fn test_failed_pause_no_event() {
    let mut ctx = TestCtx::new();
    let sub_id = ctx.create_sub();
    let stranger = address(9);
    let before = ctx.event_count();

    let result = do_pause_subscription(&mut ctx.vault, sub_id, stranger);
    assert!(result.is_err());
    assert_eq!(result, Err(Error::Forbidden));
    assert_eq!(ctx.event_count(), before, "no event on failed pause");
}

// Refunds and withdrawals.

#[test]
fn test_merchant_withdrawal_emits_full_event() {
    let mut ctx = TestCtx::new();
    let sub_id = ctx.create_sub();
    ctx.deposit(sub_id, 50_000_000);

    // A charge gives the merchant a balance.
    ctx.vault.timestamp = 1_000 + 3600 + 1;
    let (vault, charged) = charge_one(ctx.vault, sub_id, 1_000 + 3600 + 1);
    ctx.vault = vault;
    assert_eq!(charged, Ok(ChargeExecutionResult::Charged));

    let before = ctx.event_count();
    withdraw_merchant_funds(&mut ctx.vault, ctx.merchant, 10_000_000, 50_000_000).unwrap();

    assert_eq!(ctx.event_count(), before + 1);
    assert_eq!(ctx.last_event().name(), "withdrawn");
    assert_eq!(ctx.last_event().subject(), Subject::AccountToken(ctx.merchant, ctx.token));
    match ctx.last_event() {
        Event::MerchantWithdrawal(event) => {
            assert_eq!(event.merchant, ctx.merchant);
            assert_eq!(event.token, ctx.token);
            assert_eq!(event.amount, 10_000_000);
            assert_eq!(event.remaining_balance, 0);
        }
        _ => panic!("another event"),
    }
}

#[test]
fn test_subscriber_withdrawal_emits_event_with_token() {
    let mut ctx = TestCtx::new();
    let sub_id = ctx.create_sub();
    ctx.deposit(sub_id, 10_000_000);
    do_cancel_subscription(&mut ctx.vault, sub_id, ctx.subscriber).unwrap();
    let before = ctx.event_count();

    do_withdraw_subscriber_funds(&mut ctx.vault, sub_id, ctx.subscriber).unwrap();

    assert_eq!(ctx.event_count(), before + 1);
    match ctx.last_event() {
        Event::SubscriberWithdrawal(event) => {
            assert_eq!(event.subscription_id, sub_id);
            assert_eq!(event.subscriber, ctx.subscriber);
            assert_eq!(event.token, ctx.token);
            assert_eq!(event.amount, 10_000_000);
            assert_eq!(event.timestamp, 1_000);
        }
        _ => panic!("another event"),
    }
}

#[test]
fn test_partial_refund_emits_event_with_token_and_balance() {
    let mut ctx = TestCtx::new();
    let sub_id = ctx.create_sub();
    ctx.deposit(sub_id, 10_000_000);
    let before = ctx.event_count();

    do_partial_refund(&mut ctx.vault, ctx.admin, sub_id, ctx.subscriber, 3_000_000).unwrap();

    assert_eq!(ctx.event_count(), before + 1);
    match ctx.last_event() {
        Event::PartialRefund(event) => {
            assert_eq!(event.subscription_id, sub_id);
            assert_eq!(event.subscriber, ctx.subscriber);
            assert_eq!(event.token, ctx.token);
            assert_eq!(event.amount, 3_000_000);
            assert_eq!(event.remaining_balance, 7_000_000);
        }
        _ => panic!("another event"),
    }
}

// What events give away, and their order.

#[test]
fn test_created_event_no_metadata_leakage() {
    let mut ctx = TestCtx::new();
    ctx.create_sub();

    match ctx.last_event() {
        Event::SubscriptionCreated(event) => {
            assert_eq!(event.lifetime_cap, None);
            assert_eq!(event.expires_at, None);
        }
        _ => panic!("another event"),
    }
}

#[test]
fn test_batch_charge_event_ordering_is_deterministic() {
    let mut ctx = TestCtx::new();

    let id0 = ctx.create_sub();
    let id1 = ctx.create_sub();
    let id2 = ctx.create_sub();

    ctx.deposit(id0, 50_000_000);
    ctx.deposit(id1, 50_000_000);
    ctx.deposit(id2, 50_000_000);

    ctx.vault.timestamp = 1_000 + 3600 + 1;
    let ids = vec![id0, id1, id2];

    let before = ctx.event_count();
    let (vault, result) = do_batch_charge(ctx.vault, &ids, charge_one);
    let reports = result.unwrap();
    assert_eq!(reports.len(), 3);
    assert!(reports.iter().all(|report| report.success && report.error_code == 0));

    let charged = charged_ids(&vault.events()[before..]);
    assert_eq!(charged.len(), 3, "3 charge events for 3 subscriptions");
    assert_eq!(charged[0], id0);
    assert_eq!(charged[1], id1);
    assert_eq!(charged[2], id2);
}

#[test]
fn test_batch_charge_partial_failure_no_success_event_for_failed() {
    let mut ctx = TestCtx::new();

    let id_funded = ctx.create_sub();
    let id_unfunded = ctx.create_sub();

    ctx.deposit(id_funded, 50_000_000);
    ctx.vault.timestamp = 1_000 + 3600 + 1;
    let ids = vec![id_funded, id_unfunded];

    let before = ctx.event_count();
    let (vault, result) = do_batch_charge(ctx.vault, &ids, charge_one);
    let reports = result.unwrap();
    assert!(reports[0].success);
    assert!(!reports[1].success);
    assert_eq!(reports[1].error_code, 1003);

    let charged = charged_ids(&vault.events()[before..]);
    assert_eq!(charged.len(), 1);
    assert_eq!(charged[0], id_funded);
}

#[test]
fn test_batch_charge_no_events_on_empty() {
    let ctx = TestCtx::new();
    let before = ctx.event_count();
    let (vault, result) = do_batch_charge(ctx.vault, &vec![], charge_one);
    assert_eq!(result.unwrap().len(), 0);
    assert_eq!(vault.events().len(), before);
}

#[test]
fn test_batch_charge_reports_each_refusal() {
    let mut ctx = TestCtx::new();
    let id = ctx.create_sub();
    ctx.deposit(id, 50_000_000);
    let (vault, result) = do_batch_charge(ctx.vault, &vec![7, id], charge_one);
    let reports = result.unwrap();
    assert_eq!(reports[0].error_code, 404);
    assert_eq!(reports[1].error_code, 1001);
    assert_eq!(charged_ids(&vault.events()).len(), 0);
}

#[test]
fn test_batch_charge_needs_a_vault_that_is_set_up() {
    let contract = Address { is_contract: true, key_high: 0, key_low: 100 };
    let (vault, result) = do_batch_charge(Vault::new(contract, 0), &vec![0], charge_one);
    assert_eq!(result.err(), Some(Error::NotInitialized));
    assert_eq!(vault.actions.len(), 0);
}

// Further promises on events.

#[test]
fn test_lifecycle_events_sequence() {
    let mut ctx = TestCtx::new();
    let before = ctx.event_count();
    let sub_id = ctx.create_sub();
    ctx.deposit(sub_id, 10_000_000);
    do_pause_subscription(&mut ctx.vault, sub_id, ctx.merchant).unwrap();
    do_resume_subscription(&mut ctx.vault, sub_id, ctx.merchant).unwrap();
    do_cancel_subscription(&mut ctx.vault, sub_id, ctx.merchant).unwrap();
    let names: Vec<&str> = ctx.vault.events()[before..].iter().map(|e| e.name()).collect();
    assert_eq!(names, vec!["created", "deposited", "paused", "resumed", "cancelled"]);
}

#[test]
fn test_init_emits_event() {
    let ctx = TestCtx::new();
    assert_eq!(ctx.event_count(), 1);
    assert_eq!(ctx.last_event().name(), "initialized");
    assert_eq!(ctx.last_event().subject(), Subject::Vault);
    match ctx.last_event() {
        Event::Initialized(event) => {
            assert_eq!(event.token, ctx.token);
            assert_eq!(event.admin, ctx.admin);
            assert_eq!(event.min_topup, 1_000_000);
            assert_eq!(event.grace_period, 0);
            assert_eq!(event.timestamp, 0);
        }
        _ => panic!("another event"),
    }
}

#[test]
fn test_credit_emits_no_event() {
    let mut ctx = TestCtx::new();
    let before = ctx.event_count();
    credit_merchant_balance(&mut ctx.vault, &ctx.merchant, 5, BillingChargeKind::Usage).unwrap();
    assert_eq!(ctx.event_count(), before);
}
