//! Plan templates: commercial terms that a merchant offers, in numbered versions.
//!
//! An update never changes a template. It adds a new version under a new ID, with the
//! same template key, and a subscriber moves a subscription to it when they choose to.

use vstd::prelude::*;

use crate::admin::{get_token, is_token_accepted, outcome};
use crate::blocklist::require_not_blocklisted;
use crate::events::Event;
use crate::limits::{
    concurrency_refusal, credit_limit_refusal, enforce_credit_limit_for_delta,
    enforce_plan_concurrency_limit,
};
use crate::queries::get_subscription;
use crate::safe_math::{next_count, successor};
use crate::subscription::{created, new_subscription, open_subscription};
use crate::types::{
    Address, Error, PlanMaxActiveUpdatedEvent, PlanTemplate, PlanTemplateCreatedEvent,
    PlanTemplateUpdatedEvent, Subscription, SubscriptionMigratedEvent, SubscriptionStatus,
};
use crate::vault::{lookup, Vault, VaultState};

verus! {

/// Takes the next plan template ID.
pub fn next_plan_id(vault: &mut Vault) -> (id: u32)
    ensures
        id == old(vault)@.next_plan_id,
        final(vault)@ == (VaultState {
            next_plan_id: successor(old(vault)@.next_plan_id),
            ..old(vault)@
        }),
{
    let id: u32 = vault.next_plan_id;
    vault.next_plan_id = next_count(id);
    id
}

/// The plan template stored under `plan_template_id`.
pub fn get_plan_template(
    vault: &Vault,
    plan_template_id: u32,
) -> (plan: Result<PlanTemplate, Error>)
    ensures
        plan == (match lookup(vault@.plans, plan_template_id) {
            Some(p) => Ok::<PlanTemplate, Error>(p),
            None => Err(Error::NotFound),
        }),
{
    match vault.plans.copied(plan_template_id) {
        Some(plan) => Ok(plan),
        None => Err(Error::NotFound),
    }
}

impl VaultState {
    /// The vault after storing `plan` under the next plan template ID.
    pub open spec fn put_next_plan(self, plan: PlanTemplate) -> VaultState {
        VaultState {
            next_plan_id: successor(self.next_plan_id),
            plans: self.plans.insert(self.next_plan_id, plan),
            ..self
        }
    }

    /// The vault after publishing that `plan` has been created under `id`.
    pub open spec fn publish_plan(self, id: u32, plan: PlanTemplate) -> VaultState {
        self.publish(
            Event::PlanTemplateCreated(
                PlanTemplateCreatedEvent {
                    plan_template_id: id,
                    merchant: plan.merchant,
                    token: plan.token,
                    amount: plan.amount,
                    interval_seconds: plan.interval_seconds,
                    usage_enabled: plan.usage_enabled,
                    lifetime_cap: plan.lifetime_cap,
                    timestamp: self.timestamp,
                },
            ),
        )
    }
}

/// Stores `plan` under the next plan template ID.
fn put_next_plan(vault: &mut Vault, plan: PlanTemplate) -> (id: u32)
    ensures
        id == old(vault)@.next_plan_id,
        final(vault)@ == old(vault)@.put_next_plan(plan),
{
    let id: u32 = next_plan_id(vault);
    vault.plans.set(id, plan);
    id
}

/// Whether a lifetime cap of a plan template is missing or positive.
pub open spec fn valid_cap(lifetime_cap: Option<i128>) -> bool {
    lifetime_cap is Some ==> lifetime_cap->0 > 0
}

/// The first version of a plan template.
pub open spec fn first_version(
    v: VaultState,
    merchant: Address,
    token: Address,
    amount: i128,
    interval_seconds: u64,
    usage_enabled: bool,
    lifetime_cap: Option<i128>,
) -> PlanTemplate {
    PlanTemplate {
        merchant,
        token,
        amount,
        interval_seconds,
        usage_enabled,
        lifetime_cap,
        template_key: v.next_plan_id,
        version: 1,
    }
}

/// What an operation that adds a plan template returns: the next ID, unless it is refused.
pub open spec fn planned(v: VaultState, refusal: Option<Error>) -> Result<u32, Error> {
    match refusal {
        Some(e) => Err(e),
        None => Ok(v.next_plan_id),
    }
}

/// The vault after creating `plan`.
pub open spec fn create_plan_after(v: VaultState, plan: PlanTemplate) -> VaultState {
    v.demand(plan.merchant).put_next_plan(plan).publish_plan(v.next_plan_id, plan)
}

/// Stores the first version of a plan template and publishes it.
fn create_plan(
    vault: &mut Vault,
    merchant: Address,
    token: Address,
    amount: i128,
    interval_seconds: u64,
    usage_enabled: bool,
    lifetime_cap: Option<i128>,
) -> (plan_id: u32)
    ensures
        plan_id == old(vault)@.next_plan_id,
        final(vault)@ == old(vault)@.put_next_plan(
            first_version(
                old(vault)@,
                merchant,
                token,
                amount,
                interval_seconds,
                usage_enabled,
                lifetime_cap,
            ),
        ).publish_plan(
            old(vault)@.next_plan_id,
            first_version(
                old(vault)@,
                merchant,
                token,
                amount,
                interval_seconds,
                usage_enabled,
                lifetime_cap,
            ),
        ),
{
    let template_key: u32 = vault.next_plan_id;
    let plan = PlanTemplate {
        merchant,
        token,
        amount,
        interval_seconds,
        usage_enabled,
        lifetime_cap,
        template_key,
        version: 1,
    };
    let plan_id: u32 = put_next_plan(vault, plan);
    let timestamp: u64 = vault.timestamp;
    vault.publish(
        Event::PlanTemplateCreated(
            PlanTemplateCreatedEvent {
                plan_template_id: plan_id,
                merchant: plan.merchant,
                token: plan.token,
                amount: plan.amount,
                interval_seconds: plan.interval_seconds,
                usage_enabled: plan.usage_enabled,
                lifetime_cap: plan.lifetime_cap,
                timestamp,
            },
        ),
    );
    plan_id
}

/// Why [`do_create_plan_template`] is refused.
pub open spec fn create_plan_refusal(v: VaultState, lifetime_cap: Option<i128>) -> Option<Error> {
    if !valid_cap(lifetime_cap) {
        Some(Error::InvalidAmount)
    } else if v.token is None {
        Some(Error::NotFound)
    } else {
        None
    }
}

/// Creates a plan template settled in the default token.
///
/// Returns the ID of the new plan template.
pub fn do_create_plan_template(
    vault: &mut Vault,
    merchant: Address,
    amount: i128,
    interval_seconds: u64,
    usage_enabled: bool,
    lifetime_cap: Option<i128>,
) -> (result: Result<u32, Error>)
    ensures
        result == planned(old(vault)@, create_plan_refusal(old(vault)@, lifetime_cap)),
        final(vault)@ == (if create_plan_refusal(old(vault)@, lifetime_cap) is Some {
            old(vault)@.demand(merchant)
        } else {
            create_plan_after(
                old(vault)@,
                first_version(
                    old(vault)@,
                    merchant,
                    old(vault)@.token->0,
                    amount,
                    interval_seconds,
                    usage_enabled,
                    lifetime_cap,
                ),
            )
        }),
{
    vault.require_auth(merchant);
    if let Some(cap) = lifetime_cap {
        if cap <= 0 {
            return Err(Error::InvalidAmount);
        }
    }
    let token = match get_token(vault) {
        Ok(token) => token,
        Err(e) => return Err(e),
    };
    Ok(
        create_plan(
            vault,
            merchant,
            token,
            amount,
            interval_seconds,
            usage_enabled,
            lifetime_cap,
        ),
    )
}

/// Why [`do_create_plan_template_with_token`] is refused.
pub open spec fn create_plan_with_token_refusal(
    v: VaultState,
    token: Address,
    lifetime_cap: Option<i128>,
) -> Option<Error> {
    if !v.accepts(token) {
        Some(Error::InvalidInput)
    } else if !valid_cap(lifetime_cap) {
        Some(Error::InvalidAmount)
    } else {
        None
    }
}

/// Creates a plan template settled in `token`.
///
/// Returns the ID of the new plan template.
pub fn do_create_plan_template_with_token(
    vault: &mut Vault,
    merchant: Address,
    token: Address,
    amount: i128,
    interval_seconds: u64,
    usage_enabled: bool,
    lifetime_cap: Option<i128>,
) -> (result: Result<u32, Error>)
    ensures
        result == planned(
            old(vault)@,
            create_plan_with_token_refusal(old(vault)@, token, lifetime_cap),
        ),
        final(vault)@ == (if create_plan_with_token_refusal(
            old(vault)@,
            token,
            lifetime_cap,
        ) is Some {
            old(vault)@.demand(merchant)
        } else {
            create_plan_after(
                old(vault)@,
                first_version(
                    old(vault)@,
                    merchant,
                    token,
                    amount,
                    interval_seconds,
                    usage_enabled,
                    lifetime_cap,
                ),
            )
        }),
{
    vault.require_auth(merchant);
    if !is_token_accepted(vault, &token) {
        return Err(Error::InvalidInput);
    }
    if let Some(cap) = lifetime_cap {
        if cap <= 0 {
            return Err(Error::InvalidAmount);
        }
    }
    Ok(
        create_plan(
            vault,
            merchant,
            token,
            amount,
            interval_seconds,
            usage_enabled,
            lifetime_cap,
        ),
    )
}

/// Why [`do_create_subscription_from_plan`] is refused.
pub open spec fn subscribe_refusal(
    v: VaultState,
    subscriber: Address,
    plan_template_id: u32,
) -> Option<Error> {
    let plan = v.plans[plan_template_id];
    if v.blocked(subscriber) {
        Some(Error::SubscriberBlocklisted)
    } else if !v.plans.contains_key(plan_template_id) {
        Some(Error::NotFound)
    } else if credit_limit_refusal(v, subscriber, plan.token, plan.amount) is Some {
        credit_limit_refusal(v, subscriber, plan.token, plan.amount)
    } else {
        concurrency_refusal(v, subscriber, plan_template_id)
    }
}

/// A subscription as it starts on the terms of `plan`.
pub open spec fn subscription_from(
    plan: PlanTemplate,
    subscriber: Address,
    now: u64,
) -> Subscription {
    new_subscription(
        subscriber,
        plan.merchant,
        plan.token,
        plan.amount,
        plan.interval_seconds,
        plan.usage_enabled,
        plan.lifetime_cap,
        None,
        now,
    )
}

/// The vault after [`do_create_subscription_from_plan`].
pub open spec fn subscribe_after(
    v: VaultState,
    subscriber: Address,
    plan_template_id: u32,
) -> VaultState {
    if subscribe_refusal(v, subscriber, plan_template_id) is Some {
        v.demand(subscriber)
    } else {
        VaultState {
            subscription_plans: v.subscription_plans.insert(v.next_id, plan_template_id),
            ..v.demand(subscriber).opened(
                subscription_from(v.plans[plan_template_id], subscriber, v.timestamp),
            )
        }
    }
}

/// Creates a subscription on the terms of a plan template.
///
/// Returns the ID of the new subscription.
pub fn do_create_subscription_from_plan(
    vault: &mut Vault,
    subscriber: Address,
    plan_template_id: u32,
) -> (result: Result<u32, Error>)
    ensures
        result == created(
            old(vault)@,
            subscribe_refusal(old(vault)@, subscriber, plan_template_id),
        ),
        final(vault)@ == subscribe_after(old(vault)@, subscriber, plan_template_id),
{
    vault.require_auth(subscriber);
    match require_not_blocklisted(vault, &subscriber) {
        Ok(()) => {},
        Err(e) => return Err(e),
    }
    let plan = match get_plan_template(vault, plan_template_id) {
        Ok(plan) => plan,
        Err(e) => return Err(e),
    };
    match enforce_credit_limit_for_delta(vault, &subscriber, &plan.token, plan.amount) {
        Ok(()) => {},
        Err(e) => return Err(e),
    }
    match enforce_plan_concurrency_limit(vault, &subscriber, plan_template_id) {
        Ok(()) => {},
        Err(e) => return Err(e),
    }
    let sub = Subscription {
        subscriber,
        merchant: plan.merchant,
        token: plan.token,
        amount: plan.amount,
        interval_seconds: plan.interval_seconds,
        last_payment_timestamp: vault.timestamp,
        status: SubscriptionStatus::Active,
        prepaid_balance: 0,
        usage_enabled: plan.usage_enabled,
        lifetime_cap: plan.lifetime_cap,
        lifetime_charged: 0,
        start_time: vault.timestamp,
        expires_at: None,
        grace_start_timestamp: None,
    };
    let id: u32 = open_subscription(vault, sub);
    vault.subscription_plans.set(id, plan_template_id);
    Ok(id)
}

/// Why [`do_update_plan_template`] is refused.
pub open spec fn update_plan_refusal(
    v: VaultState,
    merchant: Address,
    plan_template_id: u32,
    usage_enabled: bool,
    lifetime_cap: Option<i128>,
) -> Option<Error> {
    if !valid_cap(lifetime_cap) {
        Some(Error::InvalidAmount)
    } else if !v.plans.contains_key(plan_template_id) {
        Some(Error::NotFound)
    } else if v.plans[plan_template_id].merchant != merchant {
        Some(Error::Forbidden)
    } else if v.plans[plan_template_id].usage_enabled != usage_enabled {
        Some(Error::InvalidInput)
    } else {
        None
    }
}

/// The version after `existing`, with new terms. The family, the merchant, the token and the
/// billing model stay.
pub open spec fn next_version(
    existing: PlanTemplate,
    amount: i128,
    interval_seconds: u64,
    lifetime_cap: Option<i128>,
) -> PlanTemplate {
    PlanTemplate {
        amount,
        interval_seconds,
        lifetime_cap,
        version: successor(existing.version),
        ..existing
    }
}

/// The vault after [`do_update_plan_template`].
pub open spec fn update_plan_after(
    v: VaultState,
    merchant: Address,
    plan_template_id: u32,
    amount: i128,
    interval_seconds: u64,
    usage_enabled: bool,
    lifetime_cap: Option<i128>,
) -> VaultState {
    let existing = v.plans[plan_template_id];
    if update_plan_refusal(v, merchant, plan_template_id, usage_enabled, lifetime_cap) is Some {
        v.demand(merchant)
    } else {
        v.demand(merchant).put_next_plan(
            next_version(existing, amount, interval_seconds, lifetime_cap),
        ).publish(
            Event::PlanTemplateUpdated(
                PlanTemplateUpdatedEvent {
                    template_key: existing.template_key,
                    old_plan_id: plan_template_id,
                    new_plan_id: v.next_plan_id,
                    version: successor(existing.version),
                    merchant,
                    timestamp: v.timestamp,
                },
            ),
        )
    }
}

/// Adds a new version of a plan template. Existing subscriptions keep their terms.
///
/// Returns the ID of the new version.
pub fn do_update_plan_template(
    vault: &mut Vault,
    merchant: Address,
    plan_template_id: u32,
    amount: i128,
    interval_seconds: u64,
    usage_enabled: bool,
    lifetime_cap: Option<i128>,
) -> (result: Result<u32, Error>)
    ensures
        result == planned(
            old(vault)@,
            update_plan_refusal(
                old(vault)@,
                merchant,
                plan_template_id,
                usage_enabled,
                lifetime_cap,
            ),
        ),
        final(vault)@ == update_plan_after(
            old(vault)@,
            merchant,
            plan_template_id,
            amount,
            interval_seconds,
            usage_enabled,
            lifetime_cap,
        ),
{
    vault.require_auth(merchant);
    if let Some(cap) = lifetime_cap {
        if cap <= 0 {
            return Err(Error::InvalidAmount);
        }
    }
    let existing = match get_plan_template(vault, plan_template_id) {
        Ok(existing) => existing,
        Err(e) => return Err(e),
    };
    if existing.merchant != merchant {
        return Err(Error::Forbidden);
    }
    // The billing model is fixed for the whole family, so that no subscriber is moved from
    // one to the other by accident.
    if usage_enabled != existing.usage_enabled {
        return Err(Error::InvalidInput);
    }
    let new_version: u32 = next_count(existing.version);
    let updated = PlanTemplate {
        merchant,
        token: existing.token,
        amount,
        interval_seconds,
        usage_enabled,
        lifetime_cap,
        template_key: existing.template_key,
        version: new_version,
    };
    let new_plan_id: u32 = put_next_plan(vault, updated);
    let timestamp: u64 = vault.timestamp;
    vault.publish(
        Event::PlanTemplateUpdated(
            PlanTemplateUpdatedEvent {
                template_key: existing.template_key,
                old_plan_id: plan_template_id,
                new_plan_id,
                version: new_version,
                merchant,
                timestamp,
            },
        ),
    );
    Ok(new_plan_id)
}

/// Why a subscription on `current` may not move to `new`.
pub open spec fn move_refusal(
    sub: Subscription,
    current: PlanTemplate,
    new: PlanTemplate,
) -> Option<Error> {
    if current.template_key != new.template_key {
        Some(Error::InvalidInput)
    } else if new.version <= current.version {
        Some(Error::InvalidInput)
    } else if new.token != sub.token {
        Some(Error::InvalidInput)
    } else if new.usage_enabled != sub.usage_enabled {
        Some(Error::InvalidInput)
    } else if new.lifetime_cap is Some && sub.lifetime_charged > new.lifetime_cap->0 {
        Some(Error::LifetimeCapReached)
    } else {
        None
    }
}

/// Why [`do_migrate_subscription_to_plan`] is refused.
pub open spec fn migrate_refusal(
    v: VaultState,
    subscriber: Address,
    subscription_id: u32,
    new_plan_template_id: u32,
) -> Option<Error> {
    let sub = v.subscriptions[subscription_id];
    let current_id = v.subscription_plans[subscription_id];
    if v.blocked(subscriber) {
        Some(Error::SubscriberBlocklisted)
    } else if !v.subscriptions.contains_key(subscription_id) {
        Some(Error::NotFound)
    } else if sub.subscriber != subscriber {
        Some(Error::Forbidden)
    } else if !v.subscription_plans.contains_key(subscription_id) {
        Some(Error::InvalidInput)
    } else if !v.plans.contains_key(current_id) || !v.plans.contains_key(new_plan_template_id) {
        Some(Error::NotFound)
    } else {
        move_refusal(sub, v.plans[current_id], v.plans[new_plan_template_id])
    }
}

/// The subscription on the terms of `plan`.
pub open spec fn on_terms(sub: Subscription, plan: PlanTemplate) -> Subscription {
    Subscription {
        lifetime_cap: plan.lifetime_cap,
        amount: plan.amount,
        interval_seconds: plan.interval_seconds,
        usage_enabled: plan.usage_enabled,
        ..sub
    }
}

/// The vault after [`do_migrate_subscription_to_plan`].
pub open spec fn migrate_after(
    v: VaultState,
    subscriber: Address,
    subscription_id: u32,
    new_plan_template_id: u32,
) -> VaultState {
    let sub = v.subscriptions[subscription_id];
    let plan = v.plans[new_plan_template_id];
    if migrate_refusal(v, subscriber, subscription_id, new_plan_template_id) is Some {
        v.demand(subscriber)
    } else {
        VaultState {
            subscription_plans: v.subscription_plans.insert(subscription_id, new_plan_template_id),
            ..v.demand(subscriber).put_subscription(subscription_id, on_terms(sub, plan))
        }.publish(
            Event::SubscriptionMigrated(
                SubscriptionMigratedEvent {
                    subscription_id,
                    template_key: plan.template_key,
                    from_plan_id: v.subscription_plans[subscription_id],
                    to_plan_id: new_plan_template_id,
                    merchant: plan.merchant,
                    subscriber,
                    timestamp: v.timestamp,
                },
            ),
        )
    }
}

/// Moves a subscription to a newer version of its plan template.
pub fn do_migrate_subscription_to_plan(
    vault: &mut Vault,
    subscriber: Address,
    subscription_id: u32,
    new_plan_template_id: u32,
) -> (result: Result<(), Error>)
    ensures
        result == outcome(
            migrate_refusal(old(vault)@, subscriber, subscription_id, new_plan_template_id),
        ),
        final(vault)@ == migrate_after(
            old(vault)@,
            subscriber,
            subscription_id,
            new_plan_template_id,
        ),
{
    vault.require_auth(subscriber);
    match require_not_blocklisted(vault, &subscriber) {
        Ok(()) => {},
        Err(e) => return Err(e),
    }
    let mut sub = match get_subscription(vault, subscription_id) {
        Ok(sub) => sub,
        Err(e) => return Err(e),
    };
    if sub.subscriber != subscriber {
        return Err(Error::Forbidden);
    }
    let current_plan_id: u32 = match vault.subscription_plans.copied(subscription_id) {
        Some(id) => id,
        // The subscription was not created from a plan template.
        None => return Err(Error::InvalidInput),
    };
    let current_plan = match get_plan_template(vault, current_plan_id) {
        Ok(plan) => plan,
        Err(e) => return Err(e),
    };
    let new_plan = match get_plan_template(vault, new_plan_template_id) {
        Ok(plan) => plan,
        Err(e) => return Err(e),
    };
    if current_plan.template_key != new_plan.template_key {
        return Err(Error::InvalidInput);
    }
    if new_plan.version <= current_plan.version {
        return Err(Error::InvalidInput);
    }
    if new_plan.token != sub.token {
        return Err(Error::InvalidInput);
    }
    if new_plan.usage_enabled != sub.usage_enabled {
        return Err(Error::InvalidInput);
    }
    if let Some(cap) = new_plan.lifetime_cap {
        if sub.lifetime_charged > cap {
            return Err(Error::LifetimeCapReached);
        }
    }
    sub.lifetime_cap = new_plan.lifetime_cap;
    sub.amount = new_plan.amount;
    sub.interval_seconds = new_plan.interval_seconds;
    sub.usage_enabled = new_plan.usage_enabled;
    vault.put_subscription(subscription_id, sub);
    vault.subscription_plans.set(subscription_id, new_plan_template_id);
    let timestamp: u64 = vault.timestamp;
    vault.publish(
        Event::SubscriptionMigrated(
            SubscriptionMigratedEvent {
                subscription_id,
                template_key: new_plan.template_key,
                from_plan_id: current_plan_id,
                to_plan_id: new_plan_template_id,
                merchant: new_plan.merchant,
                subscriber,
                timestamp,
            },
        ),
    );
    Ok(())
}

/// Why [`do_set_plan_max_active_subs`] is refused.
pub open spec fn set_plan_limit_refusal(
    v: VaultState,
    merchant: Address,
    plan_template_id: u32,
) -> Option<Error> {
    match lookup(v.plans, plan_template_id) {
        None => Some(Error::NotFound),
        Some(plan) => if plan.merchant != merchant {
            Some(Error::Forbidden)
        } else {
            None
        },
    }
}

/// The vault after [`do_set_plan_max_active_subs`].
pub open spec fn set_plan_limit_after(
    v: VaultState,
    merchant: Address,
    plan_template_id: u32,
    max_active: u32,
) -> VaultState {
    if set_plan_limit_refusal(v, merchant, plan_template_id) is Some {
        v.demand(merchant)
    } else {
        VaultState {
            plan_limits: v.plan_limits.insert(plan_template_id, max_active),
            ..v.demand(merchant)
        }.publish(
            Event::PlanMaxActiveUpdated(
                PlanMaxActiveUpdatedEvent {
                    plan_template_id,
                    merchant,
                    max_active,
                    timestamp: v.timestamp,
                },
            ),
        )
    }
}

/// Sets how many active subscriptions one subscriber may have on a plan template. Zero lifts
/// the limit.
pub fn do_set_plan_max_active_subs(
    vault: &mut Vault,
    merchant: Address,
    plan_template_id: u32,
    max_active: u32,
) -> (result: Result<(), Error>)
    ensures
        result == outcome(set_plan_limit_refusal(old(vault)@, merchant, plan_template_id)),
        final(vault)@ == set_plan_limit_after(
            old(vault)@,
            merchant,
            plan_template_id,
            max_active,
        ),
{
    vault.require_auth(merchant);
    let plan = match get_plan_template(vault, plan_template_id) {
        Ok(plan) => plan,
        Err(e) => return Err(e),
    };
    if plan.merchant != merchant {
        return Err(Error::Forbidden);
    }
    vault.plan_limits.set(plan_template_id, max_active);
    let timestamp: u64 = vault.timestamp;
    vault.publish(
        Event::PlanMaxActiveUpdated(
            PlanMaxActiveUpdatedEvent { plan_template_id, merchant, max_active, timestamp },
        ),
    );
    Ok(())
}

} // verus!
