//! The laws of the vault on concrete values: a long history is played through, and after
//! every step what must always hold is looked at.

use subscription_vault::accounting::get_total_accounted;
use subscription_vault::admin::{
    add_accepted_token, do_init, do_recover_stranded_funds, do_set_min_topup,
    list_accepted_tokens, remove_accepted_token, set_protocol_fee,
};
use subscription_vault::events::Action;
use subscription_vault::limits::{
    count_active_subscriptions_for_plan, do_set_subscriber_credit_limit, get_subscriber_exposure,
};
use subscription_vault::merchant::{
    get_merchant_balance_by_token, get_reconciliation_snapshot, merchant_refund,
    withdraw_merchant_funds_for_token,
};
use subscription_vault::plans::{
    do_create_plan_template, do_create_subscription_from_plan, do_migrate_subscription_to_plan,
    do_set_plan_max_active_subs, do_update_plan_template, get_plan_template,
};
use subscription_vault::queries::get_subscription;
use subscription_vault::state_machine::validate_status_transition;
use subscription_vault::subscription::{
    do_cancel_subscription, do_charge_one_off, do_cleanup_subscription, do_create_subscription,
    do_create_subscription_with_token, do_deposit_funds, do_partial_refund,
    do_pause_subscription, do_resume_subscription, do_withdraw_subscriber_funds,
};
use subscription_vault::types::{
    Address, Error, RecoveryReason, StatementId, Subscription, SubscriptionStatus,
};
use subscription_vault::vault::Vault;

const VAULT: Address = Address { is_contract: true, key_high: 0, key_low: 100 };
const USD: Address = Address { is_contract: true, key_high: 0, key_low: 200 };
const EUR: Address = Address { is_contract: true, key_high: 0, key_low: 201 };
const ADMIN: Address = account(1);
const ALICE: Address = account(2);
const BOB: Address = account(3);
const SHOP: Address = account(4);
const PRESS: Address = account(5);

const fn account(key: u128) -> Address {
    Address { is_contract: false, key_high: 0, key_low: key }
}

/// A vault, and what the token contracts say it holds.
struct World {
    vault: Vault,
    usd: i128,
    eur: i128,
}

impl World {
    fn new() -> Self {
        let mut vault = Vault::new(VAULT, 1_000);
        do_init(&mut vault, USD, 7, ADMIN, 1, 600).unwrap();
        add_accepted_token(&mut vault, ADMIN, EUR, 6).unwrap();
        World { vault, usd: 0, eur: 0 }
    }

    /// Performs the transfers that the last operation asked for.
    fn settle(&mut self) {
        for action in std::mem::take(&mut self.vault.actions) {
            if let Action::Transfer(t) = action {
                let held = if t.token == USD { &mut self.usd } else { &mut self.eur };
                if t.to == VAULT {
                    *held += t.amount;
                }
                if t.from == VAULT {
                    *held -= t.amount;
                }
            }
        }
    }

    /// What the vault owes in a token.
    fn owed(&self, token: Address) -> i128 {
        let prepaid: i128 = (0..self.vault.next_id)
            .filter_map(|id| get_subscription(&self.vault, id).ok())
            .filter(|sub| sub.token == token)
            .map(|sub| sub.prepaid_balance)
            .sum();
        let balances: i128 = [SHOP, PRESS]
            .iter()
            .map(|m| get_merchant_balance_by_token(&self.vault, m, &token))
            .sum();
        prepaid + balances
    }

    fn refunded(&self) -> i128 {
        [SHOP, PRESS]
            .iter()
            .flat_map(|m| get_reconciliation_snapshot(&self.vault, m))
            .map(|row| row.total_refunds)
            .sum()
    }

    fn check(&self) {
        // What is owed is accounted for and can be paid, up to what merchants refunded.
        for (token, held) in [(USD, self.usd), (EUR, self.eur)] {
            let owed = self.owed(token);
            let accounted = get_total_accounted(&self.vault, &token);
            let refunded = if token == USD { self.refunded() } else { 0 };
            assert_eq!(owed, accounted - refunded);
            assert!(owed <= held);
        }
        // The earnings explain every balance.
        for merchant in [SHOP, PRESS] {
            let rows = get_reconciliation_snapshot(&self.vault, &merchant);
            for (i, row) in rows.iter().enumerate() {
                assert_eq!(
                    row.computed_balance,
                    get_merchant_balance_by_token(&self.vault, &merchant, &row.token)
                );
                assert!(rows[i + 1..].iter().all(|other| other.token != row.token));
            }
        }
        // Every subscription is in order and listed once under its merchant and its token.
        for id in 0..self.vault.next_id {
            let sub = get_subscription(&self.vault, id).unwrap();
            assert!(sub.prepaid_balance >= 0 && sub.lifetime_charged >= 0);
            assert!(sub.lifetime_cap.map_or(true, |cap| sub.lifetime_charged <= cap));
            let once = |list: &Vec<u32>| list.iter().filter(|&&n| n == id).count() == 1;
            assert!(once(self.vault.merchant_subs.get(sub.merchant).unwrap()));
            assert!(once(self.vault.token_subs.get(sub.token).unwrap()));
            // Its statements are numbered without gaps.
            let count = self.vault.statement_counts.copied(id).unwrap_or(0);
            for sequence in 0..count {
                assert!(self.vault.statements.has(StatementId { subscription_id: id, sequence }));
            }
            assert!(!self
                .vault
                .statements
                .has(StatementId { subscription_id: id, sequence: count }));
        }
        // The accepted tokens are listed once each.
        let listed = list_accepted_tokens(&self.vault);
        assert_eq!(listed.len(), self.vault.accepted_tokens.len());
        assert!(listed.iter().any(|entry| entry.token == USD));
    }

    /// Runs an operation and looks at what must always hold.
    fn step<T>(&mut self, operation: impl FnOnce(&mut Vault) -> T) -> T {
        let before: Vec<Subscription> = (0..self.vault.next_id)
            .map(|id| get_subscription(&self.vault, id).unwrap())
            .collect();
        let result = operation(&mut self.vault);
        for (id, old) in before.iter().enumerate() {
            let new = get_subscription(&self.vault, id as u32).unwrap();
            assert_eq!(new.subscriber, old.subscriber);
            assert_eq!(new.merchant, old.merchant);
            assert_eq!(new.token, old.token);
            assert!(new.lifetime_charged >= old.lifetime_charged);
            let expired = SubscriptionStatus::Expired;
            assert!(
                validate_status_transition(&old.status, &new.status).is_ok()
                    || validate_status_transition(&old.status, &expired).is_ok()
                        && validate_status_transition(&expired, &new.status).is_ok()
            );
        }
        self.settle();
        self.check();
        result
    }
}

#[test]
fn a_long_history_keeps_every_law() {
    let mut w = World::new();
    w.check();
    let a = w
        .step(|v| do_create_subscription(v, ALICE, SHOP, 100, 60, false, Some(400), None))
        .unwrap();
    let b = w
        .step(|v| {
            do_create_subscription_with_token(v, BOB, PRESS, EUR, 50, 60, true, None, Some(5_000))
        })
        .unwrap();
    let plan = w.step(|v| do_create_plan_template(v, SHOP, 70, 90, false, None)).unwrap();
    let c = w.step(|v| do_create_subscription_from_plan(v, ALICE, plan)).unwrap();
    w.step(|v| do_deposit_funds(v, a, ALICE, 500)).unwrap();
    w.step(|v| do_deposit_funds(v, b, BOB, 300)).unwrap();
    w.step(|v| do_deposit_funds(v, c, BOB, 90)).unwrap();
    w.step(|v| do_charge_one_off(v, a, SHOP, 120)).unwrap();
    w.step(|v| do_charge_one_off(v, b, PRESS, 80)).unwrap();
    w.step(|v| do_charge_one_off(v, c, SHOP, 30)).unwrap();
    let held = w.usd;
    w.step(|v| withdraw_merchant_funds_for_token(v, SHOP, USD, 60, held)).unwrap();
    let held = w.eur;
    w.step(|v| withdraw_merchant_funds_for_token(v, PRESS, EUR, 80, held)).unwrap();
    w.step(|v| merchant_refund(v, SHOP, ALICE, USD, 20)).unwrap();
    w.step(|v| do_partial_refund(v, ADMIN, a, ALICE, 50)).unwrap();
    w.step(|v| do_pause_subscription(v, a, SHOP)).unwrap();
    w.step(|v| do_resume_subscription(v, a, ALICE)).unwrap();
    let next = w
        .step(|v| do_update_plan_template(v, SHOP, plan, 75, 90, false, Some(1_000)))
        .unwrap();
    w.step(|v| do_migrate_subscription_to_plan(v, ALICE, c, next)).unwrap();
    w.step(|v| do_charge_one_off(v, a, SHOP, 280)).unwrap();
    assert_eq!(get_subscription(&w.vault, a).unwrap().status, SubscriptionStatus::Cancelled);
    w.step(|v| do_withdraw_subscriber_funds(v, a, ALICE)).unwrap();
    w.vault.timestamp = 6_000;
    assert_eq!(
        w.step(|v| do_deposit_funds(v, b, BOB, 10)),
        Err(Error::SubscriptionExpired)
    );
    w.step(|v| do_cleanup_subscription(v, b, BOB)).unwrap();
    w.step(|v| do_withdraw_subscriber_funds(v, b, BOB)).unwrap();
    assert_eq!(w.eur, 0);
    // Someone sends tokens by mistake, and the admin recovers them.
    w.usd += 25;
    let held = w.usd;
    let surplus = held - get_total_accounted(&w.vault, &USD);
    assert_eq!(surplus, 5);
    w.step(|v| {
        let reason = RecoveryReason::SystemCorrection;
        do_recover_stranded_funds(v, ADMIN, USD, BOB, 5, "r".to_string(), reason, held)
    })
    .unwrap();
    w.step(|v| do_cancel_subscription(v, c, SHOP)).unwrap();
    w.step(|v| do_withdraw_subscriber_funds(v, c, ALICE)).unwrap();
    w.step(|v| remove_accepted_token(v, ADMIN, EUR)).unwrap();
    w.step(|v| set_protocol_fee(v, ADMIN, BOB, 250)).unwrap();
    // All that is left belongs to the shop.
    assert_eq!(w.owed(USD), get_merchant_balance_by_token(&w.vault, &SHOP, &USD));
    assert_eq!(w.owed(USD), 350);
}

#[test]
fn a_refusal_leaves_only_the_demand_for_authorization() {
    let mut w = World::new();
    let a = w
        .step(|v| do_create_subscription(v, ALICE, SHOP, 100, 60, false, None, None))
        .unwrap();
    w.step(|v| do_deposit_funds(v, a, ALICE, 200)).unwrap();
    let before = get_subscription(&w.vault, a).unwrap();
    let refusals: Vec<Box<dyn Fn(&mut Vault) -> Result<(), Error>>> = vec![
        Box::new(move |v| do_deposit_funds(v, a, ALICE, 0)),
        Box::new(move |v| do_pause_subscription(v, a, BOB)),
        Box::new(move |v| do_resume_subscription(v, a, BOB)),
        Box::new(move |v| do_cancel_subscription(v, a, BOB)),
        Box::new(move |v| do_charge_one_off(v, a, SHOP, 201)),
        Box::new(move |v| do_cleanup_subscription(v, a, ALICE)),
        Box::new(move |v| do_withdraw_subscriber_funds(v, a, ALICE)),
        Box::new(move |v| do_partial_refund(v, ADMIN, a, ALICE, 201)),
        Box::new(move |v| merchant_refund(v, SHOP, ALICE, USD, 1)),
        Box::new(move |v| withdraw_merchant_funds_for_token(v, SHOP, USD, 1, 200)),
        Box::new(move |v| do_set_min_topup(v, BOB, 1)),
    ];
    for refuse in refusals {
        assert!(refuse(&mut w.vault).is_err());
        assert_eq!(w.vault.actions.len(), 1);
        assert!(matches!(w.vault.actions[0], Action::RequireAuth(_)));
        assert_eq!(vec![Action::RequireAuth(w.vault.demands()[0])], w.vault.actions);
        w.vault.actions.clear();
        assert_eq!(get_subscription(&w.vault, a), Ok(before));
        w.check();
    }
}

#[test]
fn limits_hold_after_what_they_allow() {
    let mut w = World::new();
    do_set_subscriber_credit_limit(&mut w.vault, ADMIN, ALICE, USD, 250).unwrap();
    let plan = do_create_plan_template(&mut w.vault, SHOP, 70, 90, false, None).unwrap();
    do_set_plan_max_active_subs(&mut w.vault, SHOP, plan, 2).unwrap();
    let mut opened = 0;
    while w.step(|v| do_create_subscription_from_plan(v, ALICE, plan)).is_ok() {
        opened += 1;
        assert_eq!(count_active_subscriptions_for_plan(&w.vault, &ALICE, plan), Ok(opened));
        assert_eq!(get_subscriber_exposure(&w.vault, ALICE, USD), Ok(70 * opened as i128));
    }
    assert_eq!(opened, 2);
    while w.step(|v| do_deposit_funds(v, 0, ALICE, 30)).is_ok() {
        assert!(get_subscriber_exposure(&w.vault, ALICE, USD).unwrap() <= 250);
    }
    assert_eq!(get_subscriber_exposure(&w.vault, ALICE, USD), Ok(230));
}

#[test]
fn plan_templates_never_change() {
    let mut w = World::new();
    let first = do_create_plan_template(&mut w.vault, SHOP, 70, 90, false, None).unwrap();
    let template = get_plan_template(&w.vault, first).unwrap();
    let mut last = first;
    for version in 2..6 {
        last = do_update_plan_template(&mut w.vault, SHOP, last, 80, 90, false, None).unwrap();
        let updated = get_plan_template(&w.vault, last).unwrap();
        assert_eq!(updated.version, version);
        assert_eq!(updated.template_key, first);
        assert_eq!(get_plan_template(&w.vault, first), Ok(template));
    }
}

#[test]
fn a_refund_undoes_a_deposit() {
    let mut w = World::new();
    let a = w
        .step(|v| do_create_subscription(v, ALICE, SHOP, 100, 60, false, None, None))
        .unwrap();
    w.step(|v| do_deposit_funds(v, a, ALICE, 40)).unwrap();
    let before = get_subscription(&w.vault, a).unwrap();
    w.step(|v| do_deposit_funds(v, a, BOB, 25)).unwrap();
    w.step(|v| do_partial_refund(v, ADMIN, a, ALICE, 25)).unwrap();
    assert_eq!(get_subscription(&w.vault, a), Ok(before));
    assert_eq!(get_total_accounted(&w.vault, &USD), 40);
}
