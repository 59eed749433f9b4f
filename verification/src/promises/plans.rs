//! What is promised of plan templates.

use vstd::prelude::*;

use crate::events::{Action, Event};
use crate::plans::{
    do_create_plan_template, do_create_plan_template_with_token, do_create_subscription_from_plan,
    do_migrate_subscription_to_plan, do_set_plan_max_active_subs, do_update_plan_template,
    get_plan_template,
};
use crate::promises::subscriptions::{is_new, opens};
use crate::promises::{
    credit_objection, crowding_objection, flagged, lemma_credit, lemma_crowding, one_up,
    only_asked,
};
use crate::types::{
    Address, Error, PlanMaxActiveUpdatedEvent, PlanTemplate, PlanTemplateCreatedEvent,
    PlanTemplateUpdatedEvent, Subscription, SubscriptionMigratedEvent,
};
use crate::vault::{Vault, VaultState};

verus! {

/// Whether `w` is `v` with one more plan template, stored under the next ID at the request of
/// its merchant, and with `event` published. No other plan template is different.
pub open spec fn adds_plan(v: VaultState, w: VaultState, plan: PlanTemplate, event: Event) -> bool {
    &&& w == VaultState {
        plans: v.plans.insert(v.next_plan_id, plan),
        next_plan_id: w.next_plan_id,
        actions: v.actions.push(Action::RequireAuth(plan.merchant)).push(Action::Publish(event)),
        ..v
    }
    &&& w.next_plan_id == one_up(v.next_plan_id)
}

/// Whether a plan template has the given terms.
pub open spec fn has_terms(
    plan: PlanTemplate,
    merchant: Address,
    token: Address,
    amount: i128,
    interval_seconds: u64,
    usage_enabled: bool,
    lifetime_cap: Option<i128>,
) -> bool {
    &&& plan.merchant == merchant
    &&& plan.token == token
    &&& plan.amount == amount
    &&& plan.interval_seconds == interval_seconds
    &&& plan.usage_enabled == usage_enabled
    &&& plan.lifetime_cap == lifetime_cap
}

/// The event that announces a new plan template.
pub open spec fn announcement(id: u32, plan: PlanTemplate, now: u64) -> Event {
    Event::PlanTemplateCreated(
        PlanTemplateCreatedEvent {
            plan_template_id: id,
            merchant: plan.merchant,
            token: plan.token,
            amount: plan.amount,
            interval_seconds: plan.interval_seconds,
            usage_enabled: plan.usage_enabled,
            lifetime_cap: plan.lifetime_cap,
            timestamp: now,
        },
    )
}

/// A plan template is created in the default token with the terms that were asked for, unless
/// its lifetime cap is not positive or there is no default token. It is the first version of a
/// family of its own.
pub proof fn a_plan_is_created_in_the_default_token(
    vault: &mut Vault,
    merchant: Address,
    amount: i128,
    interval_seconds: u64,
    usage_enabled: bool,
    lifetime_cap: Option<i128>,
    result: Result<u32, Error>,
)
    requires
        call_ensures(
            do_create_plan_template,
            (vault, merchant, amount, interval_seconds, usage_enabled, lifetime_cap),
            result,
        ),
    ensures
        result == (if lifetime_cap is Some && lifetime_cap->0 <= 0 {
            Err(Error::InvalidAmount)
        } else if old(vault)@.token is None {
            Err(Error::NotFound)
        } else {
            Ok::<u32, Error>(old(vault)@.next_plan_id)
        }),
        result is Err ==> final(vault)@ == only_asked(old(vault)@, merchant),
        result is Ok ==> ({
            let v = old(vault)@;
            let id = v.next_plan_id;
            let plan = final(vault)@.plans[id];
            &&& adds_plan(v, final(vault)@, plan, announcement(id, plan, v.timestamp))
            &&& has_terms(
                plan,
                merchant,
                v.token->0,
                amount,
                interval_seconds,
                usage_enabled,
                lifetime_cap,
            )
            &&& plan.template_key == id
            &&& plan.version == 1
        }),
{
}

/// A plan template is created in any accepted token with the terms that were asked for, unless
/// its lifetime cap is not positive. It is the first version of a family of its own.
pub proof fn a_plan_is_created_as_asked_for(
    vault: &mut Vault,
    merchant: Address,
    token: Address,
    amount: i128,
    interval_seconds: u64,
    usage_enabled: bool,
    lifetime_cap: Option<i128>,
    result: Result<u32, Error>,
)
    requires
        call_ensures(
            do_create_plan_template_with_token,
            (vault, merchant, token, amount, interval_seconds, usage_enabled, lifetime_cap),
            result,
        ),
    ensures
        result == (if !old(vault)@.token_decimals.contains_key(token) {
            Err(Error::InvalidInput)
        } else if lifetime_cap is Some && lifetime_cap->0 <= 0 {
            Err(Error::InvalidAmount)
        } else {
            Ok::<u32, Error>(old(vault)@.next_plan_id)
        }),
        result is Err ==> final(vault)@ == only_asked(old(vault)@, merchant),
        result is Ok ==> ({
            let v = old(vault)@;
            let id = v.next_plan_id;
            let plan = final(vault)@.plans[id];
            &&& adds_plan(v, final(vault)@, plan, announcement(id, plan, v.timestamp))
            &&& has_terms(
                plan,
                merchant,
                token,
                amount,
                interval_seconds,
                usage_enabled,
                lifetime_cap,
            )
            &&& plan.template_key == id
            &&& plan.version == 1
        }),
{
}

/// Whoever is not blocked can subscribe to a stored plan template, within the credit limit and
/// the limit of the template. The subscription is new, has the merchant, the token, the amount,
/// the interval, the billing model and the lifetime cap of the template, does not expire, and
/// is pinned to the template.
pub proof fn a_subscription_has_the_terms_of_its_plan(
    vault: &mut Vault,
    subscriber: Address,
    plan_id: u32,
    result: Result<u32, Error>,
)
    requires
        call_ensures(do_create_subscription_from_plan, (vault, subscriber, plan_id), result),
    ensures
        ({
            let v = old(vault)@;
            let plan = v.plans[plan_id];
            let credit = credit_objection(v, subscriber, plan.token, plan.amount as int);
            let crowding = crowding_objection(v, subscriber, plan_id);
            result == (if flagged(v.blocklist, subscriber) {
                Err::<u32, Error>(Error::SubscriberBlocklisted)
            } else if !v.plans.contains_key(plan_id) {
                Err(Error::NotFound)
            } else if credit is Some {
                Err(credit->0)
            } else if crowding is Some {
                Err(crowding->0)
            } else {
                Ok(v.next_id)
            })
        }),
        result is Err ==> final(vault)@ == only_asked(old(vault)@, subscriber),
        result is Ok ==> ({
            let v = old(vault)@;
            let w = final(vault)@;
            let plan = v.plans[plan_id];
            let sub = w.subscriptions[v.next_id];
            &&& opens(v, w, sub)
            &&& w.subscription_plans == v.subscription_plans.insert(v.next_id, plan_id)
            &&& is_new(sub, v.timestamp)
            &&& sub.subscriber == subscriber
            &&& sub.merchant == plan.merchant
            &&& sub.token == plan.token
            &&& sub.amount == plan.amount
            &&& sub.interval_seconds == plan.interval_seconds
            &&& sub.usage_enabled == plan.usage_enabled
            &&& sub.lifetime_cap == plan.lifetime_cap
            &&& sub.expires_at is None
        }),
{
    let v = old(vault)@;
    lemma_credit(v, subscriber, v.plans[plan_id].token, v.plans[plan_id].amount);
    lemma_crowding(v, subscriber, plan_id);
}

/// The merchant of a plan template can add a version with another amount, interval and
/// lifetime cap. The family, the merchant, the token and the billing model stay, the version
/// is the next one, and the old template and all subscriptions keep their terms.
pub proof fn an_update_adds_a_version(
    vault: &mut Vault,
    merchant: Address,
    plan_id: u32,
    amount: i128,
    interval_seconds: u64,
    usage_enabled: bool,
    lifetime_cap: Option<i128>,
    result: Result<u32, Error>,
)
    requires
        call_ensures(
            do_update_plan_template,
            (vault, merchant, plan_id, amount, interval_seconds, usage_enabled, lifetime_cap),
            result,
        ),
    ensures
        ({
            let v = old(vault)@;
            result == (if lifetime_cap is Some && lifetime_cap->0 <= 0 {
                Err::<u32, Error>(Error::InvalidAmount)
            } else if !v.plans.contains_key(plan_id) {
                Err(Error::NotFound)
            } else if v.plans[plan_id].merchant != merchant {
                Err(Error::Forbidden)
            } else if v.plans[plan_id].usage_enabled != usage_enabled {
                Err(Error::InvalidInput)
            } else {
                Ok(v.next_plan_id)
            })
        }),
        result is Err ==> final(vault)@ == only_asked(old(vault)@, merchant),
        result is Ok ==> ({
            let v = old(vault)@;
            let before = v.plans[plan_id];
            let plan = final(vault)@.plans[v.next_plan_id];
            &&& adds_plan(
                v,
                final(vault)@,
                plan,
                Event::PlanTemplateUpdated(
                    PlanTemplateUpdatedEvent {
                        template_key: before.template_key,
                        old_plan_id: plan_id,
                        new_plan_id: v.next_plan_id,
                        version: plan.version,
                        merchant,
                        timestamp: v.timestamp,
                    },
                ),
            )
            &&& has_terms(
                plan,
                merchant,
                before.token,
                amount,
                interval_seconds,
                before.usage_enabled,
                lifetime_cap,
            )
            &&& plan.template_key == before.template_key
            &&& plan.version == one_up(before.version)
        }),
{
}

/// A subscriber that is not blocked can move their subscription to any newer version of its
/// plan template, however many versions lie between, as long as the token and the billing
/// model are those of the subscription and what has been charged does not exceed the new
/// lifetime cap. The subscription then has the amount, the interval, the billing model and the
/// lifetime cap of that version and is pinned to it; nothing else of it is different.
pub proof fn a_migration_leads_to_any_newer_version(
    vault: &mut Vault,
    subscriber: Address,
    id: u32,
    plan_id: u32,
    result: Result<(), Error>,
)
    requires
        call_ensures(do_migrate_subscription_to_plan, (vault, subscriber, id, plan_id), result),
    ensures
        ({
            let v = old(vault)@;
            let sub = v.subscriptions[id];
            let current = v.plans[v.subscription_plans[id]];
            let new = v.plans[plan_id];
            result is Ok <==> {
                &&& !flagged(v.blocklist, subscriber)
                &&& v.subscriptions.contains_key(id)
                &&& sub.subscriber == subscriber
                &&& v.subscription_plans.contains_key(id)
                &&& v.plans.contains_key(v.subscription_plans[id])
                &&& v.plans.contains_key(plan_id)
                &&& new.template_key == current.template_key
                &&& new.version > current.version
                &&& new.token == sub.token
                &&& new.usage_enabled == sub.usage_enabled
                &&& new.lifetime_cap is Some ==> sub.lifetime_charged <= new.lifetime_cap->0
            }
        }),
        ({
            let v = old(vault)@;
            let sub = v.subscriptions[id];
            let current = v.plans[v.subscription_plans[id]];
            let new = v.plans[plan_id];
            result is Err ==> result == Err::<(), Error>(
                if flagged(v.blocklist, subscriber) {
                    Error::SubscriberBlocklisted
                } else if !v.subscriptions.contains_key(id) {
                    Error::NotFound
                } else if sub.subscriber != subscriber {
                    Error::Forbidden
                } else if !v.subscription_plans.contains_key(id) {
                    Error::InvalidInput
                } else if !v.plans.contains_key(v.subscription_plans[id])
                    || !v.plans.contains_key(plan_id) {
                    Error::NotFound
                } else if new.template_key == current.template_key && new.version
                    > current.version && new.token == sub.token && new.usage_enabled
                    == sub.usage_enabled {
                    Error::LifetimeCapReached
                } else {
                    Error::InvalidInput
                },
            )
        }),
        result is Err ==> final(vault)@ == only_asked(old(vault)@, subscriber),
        result is Ok ==> ({
            let v = old(vault)@;
            let w = final(vault)@;
            let sub = v.subscriptions[id];
            let now = w.subscriptions[id];
            let plan = v.plans[plan_id];
            &&& w == VaultState {
                subscriptions: v.subscriptions.insert(id, now),
                subscription_plans: v.subscription_plans.insert(id, plan_id),
                actions: v.actions.push(Action::RequireAuth(subscriber)).push(
                    Action::Publish(
                        Event::SubscriptionMigrated(
                            SubscriptionMigratedEvent {
                                subscription_id: id,
                                template_key: plan.template_key,
                                from_plan_id: v.subscription_plans[id],
                                to_plan_id: plan_id,
                                merchant: plan.merchant,
                                subscriber,
                                timestamp: v.timestamp,
                            },
                        ),
                    ),
                ),
                ..v
            }
            &&& now == Subscription {
                amount: now.amount,
                interval_seconds: now.interval_seconds,
                usage_enabled: now.usage_enabled,
                lifetime_cap: now.lifetime_cap,
                ..sub
            }
            &&& now.amount == plan.amount
            &&& now.interval_seconds == plan.interval_seconds
            &&& now.usage_enabled == plan.usage_enabled
            &&& now.lifetime_cap == plan.lifetime_cap
        }),
{
}

/// The merchant of a plan template sets how many active subscriptions one subscriber may have
/// on it. Nothing else is different then.
pub proof fn a_plan_limit_is_set_as_asked_for(
    vault: &mut Vault,
    merchant: Address,
    plan_id: u32,
    max_active: u32,
    result: Result<(), Error>,
)
    requires
        call_ensures(do_set_plan_max_active_subs, (vault, merchant, plan_id, max_active), result),
    ensures
        result == (if !old(vault)@.plans.contains_key(plan_id) {
            Err::<(), Error>(Error::NotFound)
        } else if old(vault)@.plans[plan_id].merchant != merchant {
            Err(Error::Forbidden)
        } else {
            Ok(())
        }),
        result is Err ==> final(vault)@ == only_asked(old(vault)@, merchant),
        result is Ok ==> final(vault)@ == (VaultState {
            plan_limits: old(vault)@.plan_limits.insert(plan_id, max_active),
            actions: old(vault)@.actions.push(Action::RequireAuth(merchant)).push(
                Action::Publish(
                    Event::PlanMaxActiveUpdated(
                        PlanMaxActiveUpdatedEvent {
                            plan_template_id: plan_id,
                            merchant,
                            max_active,
                            timestamp: old(vault)@.timestamp,
                        },
                    ),
                ),
            ),
            ..old(vault)@
        }),
{
}

/// A plan template that is stored is what is read, and only that.
pub proof fn a_stored_plan_is_read(vault: &Vault, id: u32, result: Result<PlanTemplate, Error>)
    requires
        call_ensures(get_plan_template, (vault, id), result),
    ensures
        vault@.plans.contains_key(id) ==> result == Ok::<PlanTemplate, Error>(vault@.plans[id]),
        !vault@.plans.contains_key(id) ==> result == Err::<PlanTemplate, Error>(Error::NotFound),
{
}

} // verus!
