//! Plan templates, and the limits on what a subscriber may take on.

use subscription_vault::admin::{add_accepted_token, do_init};
use subscription_vault::events::{Action, Event, Subject};
use subscription_vault::limits::{
    count_active_subscriptions_for_plan, do_set_subscriber_credit_limit,
    get_plan_max_active_subs, get_subscriber_credit_limit, get_subscriber_exposure,
    MAX_WRITE_PATH_SCAN_DEPTH,
};
use subscription_vault::plans::{
    do_create_plan_template, do_create_plan_template_with_token,
    do_create_subscription_from_plan, do_migrate_subscription_to_plan,
    do_set_plan_max_active_subs, do_update_plan_template, get_plan_template, next_plan_id,
};
use subscription_vault::queries::get_subscription;
use subscription_vault::subscription::{
    do_charge_one_off, do_create_subscription, do_deposit_funds, do_pause_subscription,
};
use subscription_vault::types::{Address, Error, PlanTemplate, SubscriptionStatus};
use subscription_vault::vault::Vault;

const ADMIN: Address = Address { is_contract: false, key_high: 0, key_low: 1 };
const SUBSCRIBER: Address = Address { is_contract: false, key_high: 0, key_low: 2 };
const MERCHANT: Address = Address { is_contract: false, key_high: 0, key_low: 3 };
const STRANGER: Address = Address { is_contract: false, key_high: 0, key_low: 9 };
const VAULT: Address = Address { is_contract: true, key_high: 0, key_low: 100 };
const TOKEN: Address = Address { is_contract: true, key_high: 0, key_low: 200 };
const OTHER_TOKEN: Address = Address { is_contract: true, key_high: 0, key_low: 201 };

fn vault() -> Vault {
    let mut vault = Vault::new(VAULT, 1_000);
    do_init(&mut vault, TOKEN, 7, ADMIN, 10, 600).unwrap();
    vault.actions.clear();
    vault
}

fn plan(v: &mut Vault) -> u32 {
    do_create_plan_template(v, MERCHANT, 100, 60, false, Some(500)).unwrap()
}

fn subscribe(v: &mut Vault, id: u32) -> Result<u32, Error> {
    do_create_subscription_from_plan(v, SUBSCRIBER, id)
}

#[test]
fn plan_ids_are_given_out_in_order() {
    let mut v = vault();
    assert_eq!(next_plan_id(&mut v), 0);
    assert_eq!(plan(&mut v), 1);
    v.next_plan_id = u32::MAX;
    assert_eq!(next_plan_id(&mut v), u32::MAX);
    assert_eq!(v.next_plan_id, 0);
}

#[test]
fn a_plan_template_starts_a_family() {
    let mut v = vault();
    let id = plan(&mut v);
    assert_eq!(
        get_plan_template(&v, id),
        Ok(PlanTemplate {
            merchant: MERCHANT,
            token: TOKEN,
            amount: 100,
            interval_seconds: 60,
            usage_enabled: false,
            lifetime_cap: Some(500),
            template_key: id,
            version: 1,
        })
    );
    assert_eq!(v.actions[0], Action::RequireAuth(MERCHANT));
    match v.events()[0] {
        Event::PlanTemplateCreated(event) => {
            assert_eq!(event.plan_template_id, id);
            assert_eq!(event.merchant, MERCHANT);
            assert_eq!(event.token, TOKEN);
            assert_eq!(event.amount, 100);
            assert_eq!(event.interval_seconds, 60);
            assert_eq!(event.lifetime_cap, Some(500));
            assert_eq!(event.timestamp, 1_000);
        }
        _ => panic!("another event"),
    }
    assert_eq!(get_plan_template(&v, 7), Err(Error::NotFound));
}

#[test]
fn plan_templates_are_checked() {
    let mut v = vault();
    assert_eq!(
        do_create_plan_template(&mut v, MERCHANT, 100, 60, false, Some(0)),
        Err(Error::InvalidAmount)
    );
    assert_eq!(
        do_create_plan_template_with_token(&mut v, MERCHANT, OTHER_TOKEN, 100, 60, false, None),
        Err(Error::InvalidInput)
    );
    assert_eq!(
        do_create_plan_template_with_token(&mut v, MERCHANT, TOKEN, 100, 60, false, Some(-1)),
        Err(Error::InvalidAmount)
    );
    let mut empty = Vault::new(VAULT, 0);
    assert_eq!(
        do_create_plan_template(&mut empty, MERCHANT, 100, 60, false, None),
        Err(Error::NotFound)
    );
    assert_eq!(v.events().len(), 0);
    assert_eq!(v.next_plan_id, 0);
}

#[test]
fn a_plan_template_in_another_token() {
    let mut v = vault();
    add_accepted_token(&mut v, ADMIN, OTHER_TOKEN, 6).unwrap();
    let id =
        do_create_plan_template_with_token(&mut v, MERCHANT, OTHER_TOKEN, 5, 60, true, None)
            .unwrap();
    assert_eq!(get_plan_template(&v, id).unwrap().token, OTHER_TOKEN);
    assert_eq!(v.events()[0].name(), "plan_template_created");
}

#[test]
fn a_subscription_takes_the_terms_of_its_plan() {
    let mut v = vault();
    let id = plan(&mut v);
    v.actions.clear();
    let sub_id = subscribe(&mut v, id).unwrap();
    let sub = get_subscription(&v, sub_id).unwrap();
    assert_eq!(sub.subscriber, SUBSCRIBER);
    assert_eq!(sub.merchant, MERCHANT);
    assert_eq!(sub.amount, 100);
    assert_eq!(sub.lifetime_cap, Some(500));
    assert_eq!(sub.expires_at, None);
    assert_eq!(sub.status, SubscriptionStatus::Active);
    assert_eq!(v.subscription_plans.copied(sub_id), Some(id));
    assert_eq!(v.merchant_subs.get(MERCHANT), Some(&vec![sub_id]));
    assert_eq!(v.token_subs.get(TOKEN), Some(&vec![sub_id]));
    assert_eq!(v.events()[0].name(), "created");
    assert_eq!(v.events()[0].subject(), Subject::Id(sub_id));
}

#[test]
fn subscribing_is_checked() {
    let mut v = vault();
    assert_eq!(subscribe(&mut v, 0), Err(Error::NotFound));
    let id = plan(&mut v);
    v.blocklist.set(SUBSCRIBER, true);
    assert_eq!(subscribe(&mut v, id), Err(Error::SubscriberBlocklisted));
    // A subscription from a plan template may have the last ID.
    v.next_id = u32::MAX;
    assert_eq!(do_create_subscription_from_plan(&mut v, STRANGER, id), Ok(u32::MAX));
    assert_eq!(v.next_id, 0);
}

#[test]
fn an_update_adds_a_version() {
    let mut v = vault();
    let id = plan(&mut v);
    v.actions.clear();
    let next = do_update_plan_template(&mut v, MERCHANT, id, 120, 90, false, None).unwrap();
    assert_ne!(next, id);
    assert_eq!(get_plan_template(&v, id).unwrap().amount, 100);
    let updated = get_plan_template(&v, next).unwrap();
    assert_eq!(updated.amount, 120);
    assert_eq!(updated.interval_seconds, 90);
    assert_eq!(updated.lifetime_cap, None);
    assert_eq!(updated.template_key, id);
    assert_eq!(updated.version, 2);
    assert_eq!(updated.token, TOKEN);
    match v.events()[0] {
        Event::PlanTemplateUpdated(event) => {
            assert_eq!(event.template_key, id);
            assert_eq!(event.old_plan_id, id);
            assert_eq!(event.new_plan_id, next);
            assert_eq!(event.version, 2);
        }
        _ => panic!("another event"),
    }
}

#[test]
fn updates_are_checked() {
    let mut v = vault();
    let id = plan(&mut v);
    assert_eq!(
        do_update_plan_template(&mut v, MERCHANT, id, 1, 60, false, Some(0)),
        Err(Error::InvalidAmount)
    );
    assert_eq!(
        do_update_plan_template(&mut v, MERCHANT, 7, 1, 60, false, None),
        Err(Error::NotFound)
    );
    assert_eq!(
        do_update_plan_template(&mut v, STRANGER, id, 1, 60, false, None),
        Err(Error::Forbidden)
    );
    assert_eq!(
        do_update_plan_template(&mut v, MERCHANT, id, 1, 60, true, None),
        Err(Error::InvalidInput)
    );
    assert_eq!(v.events().len(), 1);
}

#[test]
fn a_migration_takes_the_newer_terms() {
    let mut v = vault();
    let id = plan(&mut v);
    let sub_id = subscribe(&mut v, id).unwrap();
    do_deposit_funds(&mut v, sub_id, SUBSCRIBER, 300).unwrap();
    do_charge_one_off(&mut v, sub_id, MERCHANT, 50).unwrap();
    let next = do_update_plan_template(&mut v, MERCHANT, id, 120, 90, false, Some(60)).unwrap();
    v.actions.clear();
    assert_eq!(do_migrate_subscription_to_plan(&mut v, SUBSCRIBER, sub_id, next), Ok(()));
    let sub = get_subscription(&v, sub_id).unwrap();
    assert_eq!(sub.amount, 120);
    assert_eq!(sub.interval_seconds, 90);
    assert_eq!(sub.lifetime_cap, Some(60));
    assert_eq!(sub.lifetime_charged, 50);
    assert_eq!(sub.prepaid_balance, 250);
    assert_eq!(v.subscription_plans.copied(sub_id), Some(next));
    match v.events()[0] {
        Event::SubscriptionMigrated(event) => {
            assert_eq!(event.subscription_id, sub_id);
            assert_eq!(event.template_key, id);
            assert_eq!(event.from_plan_id, id);
            assert_eq!(event.to_plan_id, next);
            assert_eq!(event.merchant, MERCHANT);
            assert_eq!(event.subscriber, SUBSCRIBER);
        }
        _ => panic!("another event"),
    }
    // There is no way back.
    assert_eq!(
        do_migrate_subscription_to_plan(&mut v, SUBSCRIBER, sub_id, id),
        Err(Error::InvalidInput)
    );
}

#[test]
fn migrations_are_checked() {
    let mut v = vault();
    let id = plan(&mut v);
    let family = plan(&mut v);
    let sub_id = subscribe(&mut v, id).unwrap();
    let plain =
        do_create_subscription(&mut v, SUBSCRIBER, MERCHANT, 100, 60, false, None, None).unwrap();
    do_deposit_funds(&mut v, sub_id, SUBSCRIBER, 300).unwrap();
    do_charge_one_off(&mut v, sub_id, MERCHANT, 50).unwrap();
    let next = do_update_plan_template(&mut v, MERCHANT, id, 120, 90, false, Some(49)).unwrap();
    v.actions.clear();
    let mut migrate = |who, sub, plan| do_migrate_subscription_to_plan(&mut v, who, sub, plan);
    assert_eq!(migrate(SUBSCRIBER, 77, next), Err(Error::NotFound));
    assert_eq!(migrate(STRANGER, sub_id, next), Err(Error::Forbidden));
    assert_eq!(migrate(SUBSCRIBER, plain, next), Err(Error::InvalidInput));
    assert_eq!(migrate(SUBSCRIBER, sub_id, 77), Err(Error::NotFound));
    assert_eq!(migrate(SUBSCRIBER, sub_id, family), Err(Error::InvalidInput));
    assert_eq!(migrate(SUBSCRIBER, sub_id, id), Err(Error::InvalidInput));
    assert_eq!(migrate(SUBSCRIBER, sub_id, next), Err(Error::LifetimeCapReached));
    v.blocklist.set(SUBSCRIBER, true);
    assert_eq!(
        do_migrate_subscription_to_plan(&mut v, SUBSCRIBER, sub_id, next),
        Err(Error::SubscriberBlocklisted)
    );
    assert_eq!(v.events().len(), 0);
}

#[test]
fn migrations_keep_the_token_and_the_billing_model() {
    let mut v = vault();
    let id = plan(&mut v);
    let sub_id = subscribe(&mut v, id).unwrap();
    let next = do_update_plan_template(&mut v, MERCHANT, id, 120, 90, false, None).unwrap();
    let mut other = get_plan_template(&v, next).unwrap();
    other.token = OTHER_TOKEN;
    v.plans.set(next, other);
    assert_eq!(
        do_migrate_subscription_to_plan(&mut v, SUBSCRIBER, sub_id, next),
        Err(Error::InvalidInput)
    );
    other.token = TOKEN;
    other.usage_enabled = true;
    v.plans.set(next, other);
    assert_eq!(
        do_migrate_subscription_to_plan(&mut v, SUBSCRIBER, sub_id, next),
        Err(Error::InvalidInput)
    );
}

#[test]
fn a_plan_limits_active_subscriptions() {
    let mut v = vault();
    let id = plan(&mut v);
    assert_eq!(get_plan_max_active_subs(&v, id), 0);
    assert_eq!(do_set_plan_max_active_subs(&mut v, MERCHANT, 7, 1), Err(Error::NotFound));
    assert_eq!(do_set_plan_max_active_subs(&mut v, STRANGER, id, 1), Err(Error::Forbidden));
    v.actions.clear();
    assert_eq!(do_set_plan_max_active_subs(&mut v, MERCHANT, id, 1), Ok(()));
    assert_eq!(get_plan_max_active_subs(&v, id), 1);
    match v.events()[0] {
        Event::PlanMaxActiveUpdated(event) => {
            assert_eq!(event.plan_template_id, id);
            assert_eq!(event.max_active, 1);
        }
        _ => panic!("another event"),
    }
    let first = subscribe(&mut v, id).unwrap();
    assert_eq!(count_active_subscriptions_for_plan(&v, &SUBSCRIBER, id), Ok(1));
    assert_eq!(subscribe(&mut v, id), Err(Error::MaxConcurrentSubscriptionsReached));
    // Others are not affected, and a paused subscription does not count.
    assert!(do_create_subscription_from_plan(&mut v, STRANGER, id).is_ok());
    do_pause_subscription(&mut v, first, SUBSCRIBER).unwrap();
    assert_eq!(count_active_subscriptions_for_plan(&v, &SUBSCRIBER, id), Ok(0));
    assert!(subscribe(&mut v, id).is_ok());
}

#[test]
fn a_credit_limit_bounds_the_exposure() {
    let mut v = vault();
    assert_eq!(
        do_set_subscriber_credit_limit(&mut v, STRANGER, SUBSCRIBER, TOKEN, 5),
        Err(Error::Unauthorized)
    );
    assert_eq!(
        do_set_subscriber_credit_limit(&mut v, ADMIN, SUBSCRIBER, TOKEN, -1),
        Err(Error::InvalidAmount)
    );
    assert_eq!(get_subscriber_credit_limit(&v, SUBSCRIBER, TOKEN), 0);
    assert_eq!(do_set_subscriber_credit_limit(&mut v, ADMIN, SUBSCRIBER, TOKEN, 250), Ok(()));
    assert_eq!(get_subscriber_credit_limit(&v, SUBSCRIBER, TOKEN), 250);
    assert_eq!(get_subscriber_exposure(&v, SUBSCRIBER, TOKEN), Ok(0));
    let make = |v: &mut Vault, amount| {
        do_create_subscription(v, SUBSCRIBER, MERCHANT, amount, 60, false, None, None)
    };
    let id = make(&mut v, 100).unwrap();
    assert_eq!(get_subscriber_exposure(&v, SUBSCRIBER, TOKEN), Ok(100));
    assert_eq!(make(&mut v, 151), Err(Error::CreditLimitExceeded));
    assert_eq!(do_deposit_funds(&mut v, id, SUBSCRIBER, 50), Ok(()));
    assert_eq!(get_subscriber_exposure(&v, SUBSCRIBER, TOKEN), Ok(150));
    assert_eq!(
        do_deposit_funds(&mut v, id, SUBSCRIBER, 101),
        Err(Error::CreditLimitExceeded)
    );
    assert_eq!(make(&mut v, 100), Ok(id + 1));
    assert_eq!(get_subscriber_exposure(&v, SUBSCRIBER, TOKEN), Ok(250));
    // A paused subscription counts with its balance only.
    do_pause_subscription(&mut v, id, SUBSCRIBER).unwrap();
    assert_eq!(get_subscriber_exposure(&v, SUBSCRIBER, TOKEN), Ok(150));
    // The limit is one of the subscriber and the token.
    assert_eq!(get_subscriber_exposure(&v, STRANGER, TOKEN), Ok(0));
    assert_eq!(get_subscriber_exposure(&v, SUBSCRIBER, OTHER_TOKEN), Ok(0));
    // Zero lifts it.
    assert_eq!(do_set_subscriber_credit_limit(&mut v, ADMIN, SUBSCRIBER, TOKEN, 0), Ok(()));
    assert!(make(&mut v, 1_000).is_ok());
}

#[test]
fn a_credit_limit_bounds_plans_too() {
    let mut v = vault();
    let id = plan(&mut v);
    do_set_subscriber_credit_limit(&mut v, ADMIN, SUBSCRIBER, TOKEN, 150).unwrap();
    assert!(subscribe(&mut v, id).is_ok());
    assert_eq!(subscribe(&mut v, id), Err(Error::CreditLimitExceeded));
}

#[test]
fn limits_refuse_to_walk_too_far() {
    let mut v = vault();
    let id = plan(&mut v);
    do_set_plan_max_active_subs(&mut v, MERCHANT, id, 3).unwrap();
    do_set_subscriber_credit_limit(&mut v, ADMIN, STRANGER, TOKEN, 150).unwrap();
    v.next_id = MAX_WRITE_PATH_SCAN_DEPTH;
    assert_eq!(get_subscriber_exposure(&v, STRANGER, TOKEN), Ok(0));
    assert_eq!(count_active_subscriptions_for_plan(&v, &SUBSCRIBER, id), Ok(0));
    v.next_id = MAX_WRITE_PATH_SCAN_DEPTH + 1;
    assert_eq!(get_subscriber_exposure(&v, STRANGER, TOKEN), Err(Error::InvalidInput));
    assert_eq!(subscribe(&mut v, id), Err(Error::InvalidInput));
    assert_eq!(
        do_create_subscription(&mut v, STRANGER, MERCHANT, 1, 60, false, None, None),
        Err(Error::InvalidInput)
    );
    // Without a limit nothing is walked over.
    assert!(do_create_subscription(&mut v, SUBSCRIBER, MERCHANT, 1, 60, false, None, None).is_ok());
}

#[test]
fn the_exposure_reports_overflow() {
    let mut v = vault();
    let id =
        do_create_subscription(&mut v, SUBSCRIBER, MERCHANT, 100, 60, false, None, None).unwrap();
    let mut sub = get_subscription(&v, id).unwrap();
    sub.prepaid_balance = i128::MAX;
    v.put_subscription(id, sub);
    assert_eq!(get_subscriber_exposure(&v, SUBSCRIBER, TOKEN), Err(Error::Overflow));
    do_set_subscriber_credit_limit(&mut v, ADMIN, SUBSCRIBER, TOKEN, 5).unwrap();
    assert_eq!(
        do_create_subscription(&mut v, SUBSCRIBER, MERCHANT, 1, 60, false, None, None),
        Err(Error::Overflow)
    );
    sub.status = SubscriptionStatus::Paused;
    v.put_subscription(id, sub);
    assert_eq!(get_subscriber_exposure(&v, SUBSCRIBER, TOKEN), Ok(i128::MAX));
    assert_eq!(
        do_create_subscription(&mut v, SUBSCRIBER, MERCHANT, 1, 60, false, None, None),
        Err(Error::Overflow)
    );
}
