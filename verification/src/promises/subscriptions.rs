//! What is promised of the life of a subscription.

use vstd::prelude::*;

use crate::events::{lemma_demands_push, lemma_events_push, Action, Event, Transfer};
use crate::promises::{
    amount_at, credit_objection, flagged, in_range, is_closed, lemma_credit, list_at, number_at,
    of, one_up, only_asked, out_of_funds, recorded, time_is_over,
};
use crate::subscription::{
    do_cancel_subscription, do_charge_one_off, do_cleanup_subscription,
    do_configure_usage_limits, do_create_subscription, do_create_subscription_with_token,
    do_deposit_funds, do_partial_refund, do_pause_subscription, do_resume_subscription,
    do_withdraw_subscriber_funds,
};
use crate::types::{
    Address, BillingChargeKind, BillingStatement, Error, FundsDepositedEvent,
    LifetimeCapReachedEvent, OneOffChargedEvent, PartialRefundEvent, StatementId,
    SubscriberWithdrawalEvent, Subscription, SubscriptionArchivedEvent,
    SubscriptionCancelledEvent, SubscriptionCreatedEvent, SubscriptionPausedEvent,
    SubscriptionRecoveryReadyEvent, SubscriptionResumedEvent, SubscriptionStatus,
};
use crate::vault::{Vault, VaultState};

verus! {

/// Whether `w` is `v` with `sub` opened under the next ID at the request of its subscriber:
/// the subscription is stored, the merchant and the token have one more subscription in their
/// lists, it has been announced, and nothing else is different.
pub open spec fn opens(v: VaultState, w: VaultState, sub: Subscription) -> bool {
    let id = v.next_id;
    &&& w == VaultState {
        next_id: w.next_id,
        subscriptions: w.subscriptions,
        merchant_subs: w.merchant_subs,
        token_subs: w.token_subs,
        subscription_plans: w.subscription_plans,
        actions: w.actions,
        ..v
    }
    &&& w.next_id == one_up(id)
    &&& w.subscriptions == v.subscriptions.insert(id, sub)
    &&& w.merchant_subs == v.merchant_subs.insert(
        sub.merchant,
        list_at(v.merchant_subs, sub.merchant).push(id),
    )
    &&& w.token_subs == v.token_subs.insert(sub.token, list_at(v.token_subs, sub.token).push(id))
    &&& w.actions == v.actions.push(Action::RequireAuth(sub.subscriber)).push(
        Action::Publish(
            Event::SubscriptionCreated(
                SubscriptionCreatedEvent {
                    subscription_id: id,
                    subscriber: sub.subscriber,
                    merchant: sub.merchant,
                    token: sub.token,
                    amount: sub.amount,
                    interval_seconds: sub.interval_seconds,
                    lifetime_cap: sub.lifetime_cap,
                    expires_at: sub.expires_at,
                },
            ),
        ),
    )
}

/// Whether a subscription is new: active since `now`, with nothing paid in and nothing charged.
pub open spec fn is_new(sub: Subscription, now: u64) -> bool {
    &&& sub.status == SubscriptionStatus::Active
    &&& sub.prepaid_balance == 0
    &&& sub.lifetime_charged == 0
    &&& sub.start_time == now
    &&& sub.last_payment_timestamp == now
    &&& sub.grace_start_timestamp is None
}

/// What stands against the terms of a new subscription, whoever asks for it.
pub open spec fn terms_objection(
    v: VaultState,
    token: Address,
    amount: i128,
    interval_seconds: u64,
    lifetime_cap: Option<i128>,
) -> Option<Error> {
    if amount < 0 {
        Some(Error::Underflow)
    } else if amount == 0 {
        Some(Error::InvalidAmount)
    } else if interval_seconds < 60 || !v.token_decimals.contains_key(token) {
        Some(Error::InvalidInput)
    } else if lifetime_cap is Some && lifetime_cap->0 <= 0 {
        Some(Error::InvalidAmount)
    } else if lifetime_cap is Some && lifetime_cap->0 < amount {
        Some(Error::InvalidInput)
    } else {
        None
    }
}

/// A subscription is created exactly when the subscriber is not blocked, the amount is
/// positive, the interval lasts a minute or more, the token is accepted, the lifetime cap, if
/// there is one, covers a charge, the credit limit is kept and an ID is left. It gets the next
/// ID and has the terms that were asked for.
pub proof fn a_subscription_is_created_as_asked_for(
    vault: &mut Vault,
    subscriber: Address,
    merchant: Address,
    token: Address,
    amount: i128,
    interval_seconds: u64,
    usage_enabled: bool,
    lifetime_cap: Option<i128>,
    expires_at: Option<u64>,
    result: Result<u32, Error>,
)
    requires
        call_ensures(
            do_create_subscription_with_token,
            (
                vault,
                subscriber,
                merchant,
                token,
                amount,
                interval_seconds,
                usage_enabled,
                lifetime_cap,
                expires_at,
            ),
            result,
        ),
    ensures
        result is Ok <==> {
            &&& !flagged(old(vault)@.blocklist, subscriber)
            &&& amount > 0
            &&& interval_seconds >= 60
            &&& old(vault)@.token_decimals.contains_key(token)
            &&& lifetime_cap is Some ==> lifetime_cap->0 >= amount
            &&& credit_objection(old(vault)@, subscriber, token, amount as int) is None
            &&& old(vault)@.next_id < u32::MAX
        },
        result is Err ==> result == Err::<u32, Error>(
            if flagged(old(vault)@.blocklist, subscriber) {
                Error::SubscriberBlocklisted
            } else if terms_objection(
                old(vault)@,
                token,
                amount,
                interval_seconds,
                lifetime_cap,
            ) is Some {
                terms_objection(old(vault)@, token, amount, interval_seconds, lifetime_cap)->0
            } else if credit_objection(old(vault)@, subscriber, token, amount as int) is Some {
                credit_objection(old(vault)@, subscriber, token, amount as int)->0
            } else {
                Error::SubscriptionLimitReached
            },
        ),
        result is Err ==> final(vault)@ == only_asked(old(vault)@, subscriber),
        result is Ok ==> {
            let sub = final(vault)@.subscriptions[old(vault)@.next_id];
            &&& result == Ok::<u32, Error>(old(vault)@.next_id)
            &&& opens(old(vault)@, final(vault)@, sub)
            &&& final(vault)@.subscription_plans == old(vault)@.subscription_plans
            &&& is_new(sub, old(vault)@.timestamp)
            &&& sub.subscriber == subscriber
            &&& sub.merchant == merchant
            &&& sub.token == token
            &&& sub.amount == amount
            &&& sub.interval_seconds == interval_seconds
            &&& sub.usage_enabled == usage_enabled
            &&& sub.lifetime_cap == lifetime_cap
            &&& sub.expires_at == expires_at
        },
{
    lemma_credit(old(vault)@, subscriber, token, amount);
}

/// A subscription without a token is created in the default token, on the same conditions. A
/// missing default token and an exceeded credit limit are reported before anyone is asked for
/// authorization.
pub proof fn a_subscription_is_created_in_the_default_token(
    vault: &mut Vault,
    subscriber: Address,
    merchant: Address,
    amount: i128,
    interval_seconds: u64,
    usage_enabled: bool,
    lifetime_cap: Option<i128>,
    expires_at: Option<u64>,
    result: Result<u32, Error>,
)
    requires
        call_ensures(
            do_create_subscription,
            (
                vault,
                subscriber,
                merchant,
                amount,
                interval_seconds,
                usage_enabled,
                lifetime_cap,
                expires_at,
            ),
            result,
        ),
    ensures
        result is Ok <==> {
            &&& old(vault)@.token is Some
            &&& !flagged(old(vault)@.blocklist, subscriber)
            &&& amount > 0
            &&& interval_seconds >= 60
            &&& old(vault)@.token_decimals.contains_key(old(vault)@.token->0)
            &&& lifetime_cap is Some ==> lifetime_cap->0 >= amount
            &&& credit_objection(
                old(vault)@,
                subscriber,
                old(vault)@.token->0,
                amount as int,
            ) is None
            &&& old(vault)@.next_id < u32::MAX
        },
        ({
            let v = old(vault)@;
            let token = v.token->0;
            let credit = credit_objection(v, subscriber, token, amount as int);
            let terms = terms_objection(v, token, amount, interval_seconds, lifetime_cap);
            result is Err ==> if v.token is None {
                result == Err::<u32, Error>(Error::NotFound) && final(vault)@ == v
            } else if credit is Some {
                result == Err::<u32, Error>(credit->0) && final(vault)@ == v
            } else {
                &&& final(vault)@ == only_asked(v, subscriber)
                &&& result == Err::<u32, Error>(
                    if flagged(v.blocklist, subscriber) {
                        Error::SubscriberBlocklisted
                    } else if terms is Some {
                        terms->0
                    } else {
                        Error::SubscriptionLimitReached
                    },
                )
            }
        }),
        result is Ok ==> {
            let sub = final(vault)@.subscriptions[old(vault)@.next_id];
            &&& result == Ok::<u32, Error>(old(vault)@.next_id)
            &&& opens(old(vault)@, final(vault)@, sub)
            &&& final(vault)@.subscription_plans == old(vault)@.subscription_plans
            &&& is_new(sub, old(vault)@.timestamp)
            &&& sub.subscriber == subscriber
            &&& sub.merchant == merchant
            &&& Some(sub.token) == old(vault)@.token
            &&& sub.amount == amount
            &&& sub.interval_seconds == interval_seconds
            &&& sub.usage_enabled == usage_enabled
            &&& sub.lifetime_cap == lifetime_cap
            &&& sub.expires_at == expires_at
        },
{
    lemma_credit(old(vault)@, subscriber, old(vault)@.token->0, amount);
}

/// Why a payment on a subscription whose time is over is refused.
pub open spec fn too_late(status: SubscriptionStatus) -> Error {
    if is_closed(status) {
        Error::InvalidStatusTransition
    } else {
        Error::SubscriptionExpired
    }
}

/// A deposit succeeds whatever the status of the subscription is: all it takes is a depositor
/// that is not blocked, an amount that is not negative and not below the minimum, a stored
/// subscription whose time is not over, the credit limit and room for the amount. Exactly the
/// amount moves from the depositor to the vault, into the prepaid balance and into the
/// accounts. The status changes only where funds had run out and the next charge is now
/// covered: then the subscription is active again.
pub proof fn a_deposit_is_paid_in(
    vault: &mut Vault,
    id: u32,
    subscriber: Address,
    amount: i128,
    result: Result<(), Error>,
)
    requires
        call_ensures(do_deposit_funds, (vault, id, subscriber, amount), result),
    ensures
        ({
            let v = old(vault)@;
            let sub = v.subscriptions[id];
            result is Ok <==> {
                &&& !flagged(v.blocklist, subscriber)
                &&& v.min_topup is Some
                &&& amount >= v.min_topup->0
                &&& amount >= 0
                &&& v.subscriptions.contains_key(id)
                &&& !time_is_over(sub, v.timestamp)
                &&& credit_objection(v, subscriber, sub.token, amount as int) is None
                &&& in_range(sub.prepaid_balance + amount)
                &&& in_range(amount_at(v.total_accounted, sub.token) + amount)
            }
        }),
        ({
            let v = old(vault)@;
            let sub = v.subscriptions[id];
            let credit = credit_objection(v, subscriber, sub.token, amount as int);
            result is Err ==> result == Err::<(), Error>(
                if flagged(v.blocklist, subscriber) {
                    Error::SubscriberBlocklisted
                } else if v.min_topup is None {
                    Error::NotInitialized
                } else if amount < v.min_topup->0 {
                    Error::BelowMinimumTopup
                } else if amount < 0 {
                    Error::Underflow
                } else if !v.subscriptions.contains_key(id) {
                    Error::NotFound
                } else if time_is_over(sub, v.timestamp) {
                    too_late(sub.status)
                } else if credit is Some {
                    credit->0
                } else {
                    Error::Overflow
                },
            )
        }),
        result is Err && result != Err::<(), Error>(Error::Overflow) ==> final(vault)@
            == only_asked(old(vault)@, subscriber),
        result is Ok ==> ({
            let v = old(vault)@;
            let w = final(vault)@;
            let sub = v.subscriptions[id];
            let now = w.subscriptions[id];
            let revived = out_of_funds(sub.status) && sub.prepaid_balance + amount >= sub.amount;
            let paid = v.actions.push(Action::RequireAuth(subscriber)).push(
                Action::Transfer(
                    Transfer { token: sub.token, from: subscriber, to: v.contract, amount },
                ),
            ).push(
                Action::Publish(
                    Event::FundsDeposited(
                        FundsDepositedEvent {
                            subscription_id: id,
                            subscriber,
                            amount,
                            prepaid_balance: now.prepaid_balance,
                        },
                    ),
                ),
            );
            &&& w == VaultState {
                subscriptions: v.subscriptions.insert(id, now),
                total_accounted: w.total_accounted,
                actions: w.actions,
                ..v
            }
            &&& now == Subscription {
                prepaid_balance: now.prepaid_balance,
                status: now.status,
                ..sub
            }
            &&& now.prepaid_balance == sub.prepaid_balance + amount
            &&& amount_at(w.total_accounted, sub.token) == amount_at(
                v.total_accounted,
                sub.token,
            ) + amount
            &&& forall|token: Address|
                token != sub.token ==> #[trigger] amount_at(w.total_accounted, token) == amount_at(
                    v.total_accounted,
                    token,
                )
            &&& if revived {
                &&& now.status == SubscriptionStatus::Active
                &&& w.actions == paid.push(
                    Action::Publish(
                        Event::SubscriptionRecoveryReady(
                            SubscriptionRecoveryReadyEvent {
                                subscription_id: id,
                                subscriber: sub.subscriber,
                                prepaid_balance: now.prepaid_balance,
                                required_amount: sub.amount,
                                timestamp: v.timestamp,
                            },
                        ),
                    ),
                ).push(
                    Action::Publish(
                        Event::SubscriptionResumed(
                            SubscriptionResumedEvent {
                                subscription_id: id,
                                authorizer: sub.subscriber,
                            },
                        ),
                    ),
                )
            } else {
                now.status == sub.status && w.actions == paid
            }
        }),
        result is Err ==> final(vault)@.demands() == old(vault)@.demands().push(subscriber),
        result is Err ==> final(vault)@.events() == old(vault)@.events(),
{
    broadcast use {lemma_demands_push, lemma_events_push};

    lemma_credit(old(vault)@, subscriber, old(vault)@.subscriptions[id].token, amount);
    let v = old(vault)@;
    let w = final(vault)@;
    let sub = v.subscriptions[id];
    if result is Ok {
        assert(w.subscriptions =~= v.subscriptions.insert(id, w.subscriptions[id]));
    }
}

/// Whether `account` is one of the two parties of a subscription.
pub open spec fn is_party(sub: Subscription, account: Address) -> bool {
    account == sub.subscriber || account == sub.merchant
}

/// Why someone may not act on a subscription, where they may not.
pub open spec fn party_objection(v: VaultState, id: u32, account: Address) -> Option<Error> {
    if !v.subscriptions.contains_key(id) {
        Some(Error::NotFound)
    } else if time_is_over(v.subscriptions[id], v.timestamp) {
        Some(Error::SubscriptionExpired)
    } else if !is_party(v.subscriptions[id], account) {
        Some(Error::Forbidden)
    } else {
        None
    }
}

/// Whether `w` is `v` with subscription `id` in another status, at the request of `account`,
/// and with `event` published: nothing of the subscription but its status is different.
pub open spec fn moves_to(
    v: VaultState,
    w: VaultState,
    id: u32,
    status: SubscriptionStatus,
    account: Address,
    event: Event,
) -> bool {
    w == VaultState {
        subscriptions: v.subscriptions.insert(
            id,
            Subscription { status, ..v.subscriptions[id] },
        ),
        actions: v.actions.push(Action::RequireAuth(account)).push(Action::Publish(event)),
        ..v
    }
}

/// Either party can pause an active subscription before its time is over. A paused one stays
/// paused, without another event, and one in any other status cannot be paused.
pub proof fn a_party_pauses_what_is_active(
    vault: &mut Vault,
    id: u32,
    authorizer: Address,
    result: Result<(), Error>,
)
    requires
        call_ensures(do_pause_subscription, (vault, id, authorizer), result),
    ensures
        ({
            let v = old(vault)@;
            let status = v.subscriptions[id].status;
            let party = party_objection(v, id, authorizer);
            if party is Some {
                result == Err::<(), Error>(party->0)
            } else if status == SubscriptionStatus::Active || status
                == SubscriptionStatus::Paused {
                result is Ok
            } else {
                result == Err::<(), Error>(Error::InvalidStatusTransition)
            }
        }),
        result is Ok && old(vault)@.subscriptions[id].status == SubscriptionStatus::Active
            ==> moves_to(
            old(vault)@,
            final(vault)@,
            id,
            SubscriptionStatus::Paused,
            authorizer,
            Event::SubscriptionPaused(
                SubscriptionPausedEvent { subscription_id: id, authorizer },
            ),
        ),
        result is Err || old(vault)@.subscriptions[id].status == SubscriptionStatus::Paused
            ==> final(vault)@ == only_asked(old(vault)@, authorizer),
{
}

/// Either party can resume a subscription that is paused, and one that ran out of funds once
/// the next charge is covered. An active one stays active, without another event, and one that
/// has ended cannot be resumed. A blocked subscriber cannot resume.
pub proof fn a_party_resumes_what_stands_still(
    vault: &mut Vault,
    id: u32,
    authorizer: Address,
    result: Result<(), Error>,
)
    requires
        call_ensures(do_resume_subscription, (vault, id, authorizer), result),
    ensures
        ({
            let v = old(vault)@;
            let sub = v.subscriptions[id];
            let party = party_objection(v, id, authorizer);
            if party is Some {
                result == Err::<(), Error>(party->0)
            } else if authorizer == sub.subscriber && flagged(v.blocklist, authorizer) {
                result == Err::<(), Error>(Error::SubscriberBlocklisted)
            } else if is_closed(sub.status) || sub.status == SubscriptionStatus::Expired {
                result == Err::<(), Error>(Error::InvalidStatusTransition)
            } else if out_of_funds(sub.status) && sub.prepaid_balance < sub.amount {
                result == Err::<(), Error>(Error::InsufficientBalance)
            } else {
                result is Ok
            }
        }),
        result is Ok && old(vault)@.subscriptions[id].status != SubscriptionStatus::Active
            ==> moves_to(
            old(vault)@,
            final(vault)@,
            id,
            SubscriptionStatus::Active,
            authorizer,
            Event::SubscriptionResumed(
                SubscriptionResumedEvent { subscription_id: id, authorizer },
            ),
        ),
        result is Err || old(vault)@.subscriptions[id].status == SubscriptionStatus::Active
            ==> final(vault)@ == only_asked(old(vault)@, authorizer),
{
}

/// Either party can cancel a subscription that has not ended. What is paid in stays where it
/// is and is announced as refundable.
pub proof fn a_party_cancels_what_has_not_ended(
    vault: &mut Vault,
    id: u32,
    authorizer: Address,
    result: Result<(), Error>,
)
    requires
        call_ensures(do_cancel_subscription, (vault, id, authorizer), result),
    ensures
        ({
            let v = old(vault)@;
            let status = v.subscriptions[id].status;
            let party = party_objection(v, id, authorizer);
            if party is Some {
                result == Err::<(), Error>(party->0)
            } else if status == SubscriptionStatus::Expired || status
                == SubscriptionStatus::Archived {
                result == Err::<(), Error>(Error::InvalidStatusTransition)
            } else {
                result is Ok
            }
        }),
        result is Ok ==> moves_to(
            old(vault)@,
            final(vault)@,
            id,
            SubscriptionStatus::Cancelled,
            authorizer,
            Event::SubscriptionCancelled(
                SubscriptionCancelledEvent {
                    subscription_id: id,
                    authorizer,
                    refund_amount: old(vault)@.subscriptions[id].prepaid_balance,
                },
            ),
        ),
        result is Err ==> final(vault)@ == only_asked(old(vault)@, authorizer),
{
}

/// Anyone can have a subscription archived once it is cancelled or its time is over; nothing
/// but its status is different then. An archived one stays as it is, without another event.
pub proof fn what_has_ended_is_archived(
    vault: &mut Vault,
    id: u32,
    authorizer: Address,
    result: Result<(), Error>,
)
    requires
        call_ensures(do_cleanup_subscription, (vault, id, authorizer), result),
    ensures
        ({
            let v = old(vault)@;
            let sub = v.subscriptions[id];
            if !v.subscriptions.contains_key(id) {
                result == Err::<(), Error>(Error::NotFound)
            } else if sub.status == SubscriptionStatus::Cancelled || time_is_over(
                sub,
                v.timestamp,
            ) {
                result is Ok
            } else {
                result == Err::<(), Error>(Error::NotActive)
            }
        }),
        result is Ok && old(vault)@.subscriptions[id].status != SubscriptionStatus::Archived
            ==> moves_to(
            old(vault)@,
            final(vault)@,
            id,
            SubscriptionStatus::Archived,
            authorizer,
            Event::SubscriptionArchived(
                SubscriptionArchivedEvent {
                    subscription_id: id,
                    timestamp: old(vault)@.timestamp,
                },
            ),
        ),
        result is Err || old(vault)@.subscriptions[id].status == SubscriptionStatus::Archived
            ==> final(vault)@ == only_asked(old(vault)@, authorizer),
{
}

/// The merchant of a subscription can charge any positive amount that the prepaid balance and
/// the lifetime cap cover, while the subscription is active or paused and its time is not over.
/// The amount moves from the prepaid balance to what the merchant has earned and can withdraw,
/// and gets a row in the billing history. The status stays as it is, unless the charge uses
/// the lifetime cap up: then the subscription is cancelled. No tokens move.
pub proof fn a_one_off_charge_moves_the_amount_to_the_merchant(
    vault: &mut Vault,
    id: u32,
    merchant: Address,
    amount: i128,
    result: Result<(), Error>,
)
    requires
        call_ensures(do_charge_one_off, (vault, id, merchant, amount), result),
    ensures
        ({
            let v = old(vault)@;
            let sub = v.subscriptions[id];
            let key = of(merchant, sub.token);
            result is Ok <==> {
                &&& v.subscriptions.contains_key(id)
                &&& !time_is_over(sub, v.timestamp)
                &&& sub.merchant == merchant
                &&& sub.status == SubscriptionStatus::Active || sub.status
                    == SubscriptionStatus::Paused
                &&& 0 < amount <= sub.prepaid_balance
                &&& in_range(sub.lifetime_charged + amount)
                &&& sub.lifetime_cap is Some ==> sub.lifetime_charged + amount
                    <= sub.lifetime_cap->0
                &&& in_range(amount_at(v.merchant_balances, key) + amount)
                &&& in_range(recorded(v, merchant, sub.token).accruals.one_off + amount)
                &&& number_at(v.statement_counts, id) < u32::MAX
            }
        }),
        ({
            let v = old(vault)@;
            let sub = v.subscriptions[id];
            result is Err ==> result == Err::<(), Error>(
                if !v.subscriptions.contains_key(id) {
                    Error::NotFound
                } else if time_is_over(sub, v.timestamp) {
                    too_late(sub.status)
                } else if sub.merchant != merchant {
                    Error::Unauthorized
                } else if sub.status != SubscriptionStatus::Active && sub.status
                    != SubscriptionStatus::Paused {
                    Error::NotActive
                } else if amount <= 0 {
                    Error::InvalidAmount
                } else if amount > sub.prepaid_balance {
                    Error::InsufficientPrepaidBalance
                } else if in_range(sub.lifetime_charged + amount) && sub.lifetime_cap is Some
                    && sub.lifetime_charged + amount > sub.lifetime_cap->0 {
                    Error::LifetimeCapReached
                } else {
                    Error::Overflow
                },
            )
        }),
        result is Err && result != Err::<(), Error>(Error::Overflow) ==> final(vault)@
            == only_asked(old(vault)@, merchant),
        result is Ok ==> ({
            let v = old(vault)@;
            let w = final(vault)@;
            let sub = v.subscriptions[id];
            let now = w.subscriptions[id];
            let key = of(merchant, sub.token);
            let row = number_at(v.statement_counts, id) as u32;
            let used_up = sub.lifetime_cap is Some && sub.lifetime_charged + amount
                == sub.lifetime_cap->0;
            let charged = v.actions.push(Action::RequireAuth(merchant)).push(
                Action::Publish(
                    Event::OneOffCharged(
                        OneOffChargedEvent {
                            subscription_id: id,
                            merchant,
                            token: sub.token,
                            amount,
                            remaining_balance: now.prepaid_balance,
                            timestamp: v.timestamp,
                        },
                    ),
                ),
            );
            &&& w == VaultState {
                subscriptions: v.subscriptions.insert(id, now),
                merchant_balances: w.merchant_balances,
                merchant_earnings: w.merchant_earnings,
                merchant_tokens: w.merchant_tokens,
                statements: w.statements,
                statement_counts: w.statement_counts,
                actions: w.actions,
                ..v
            }
            &&& now == Subscription {
                prepaid_balance: now.prepaid_balance,
                lifetime_charged: now.lifetime_charged,
                status: now.status,
                ..sub
            }
            &&& now.prepaid_balance == sub.prepaid_balance - amount
            &&& now.lifetime_charged == sub.lifetime_charged + amount
            &&& w.merchant_balances == v.merchant_balances.insert(key, w.merchant_balances[key])
            &&& w.merchant_balances[key] == amount_at(v.merchant_balances, key) + amount
            &&& earns(v, w, merchant, sub.token, amount, BillingChargeKind::OneOff)
            &&& w.statements == v.statements.insert(
                StatementId { subscription_id: id, sequence: row },
                BillingStatement {
                    subscription_id: id,
                    sequence: row,
                    charged_at: v.timestamp,
                    period_start: v.timestamp,
                    period_end: v.timestamp,
                    amount,
                    merchant,
                    kind: BillingChargeKind::OneOff,
                },
            )
            &&& w.statement_counts == v.statement_counts.insert(id, (row + 1) as u32)
            &&& if used_up {
                &&& now.status == SubscriptionStatus::Cancelled
                &&& w.actions == charged.push(
                    Action::Publish(
                        Event::LifetimeCapReached(
                            LifetimeCapReachedEvent {
                                subscription_id: id,
                                lifetime_cap: sub.lifetime_cap->0,
                                lifetime_charged: now.lifetime_charged,
                                timestamp: v.timestamp,
                            },
                        ),
                    ),
                )
            } else {
                now.status == sub.status && w.actions == charged
            }
        }),
        result is Err ==> final(vault)@.demands() == old(vault)@.demands().push(merchant),
        result is Err ==> final(vault)@.events() == old(vault)@.events(),
{
    broadcast use {lemma_demands_push, lemma_events_push};

    let v = old(vault)@;
    let w = final(vault)@;
    let token = v.subscriptions[id].token;
    if result is Ok {
        assert(w.merchant_balances =~= v.merchant_balances.insert(
            of(merchant, token),
            w.merchant_balances[of(merchant, token)],
        ));
        assert(w.merchant_earnings =~= v.merchant_earnings.insert(
            of(merchant, token),
            w.merchant_earnings[of(merchant, token)],
        ));
    }
}

/// Whether the earnings of `merchant` in `token` have grown by `amount`, from a charge of the
/// given kind, and the token is among those in which the merchant has earned. No other
/// earnings are different.
pub open spec fn earns(
    v: VaultState,
    w: VaultState,
    merchant: Address,
    token: Address,
    amount: i128,
    kind: BillingChargeKind,
) -> bool {
    let key = of(merchant, token);
    let before = recorded(v, merchant, token);
    let now = w.merchant_earnings[key];
    let tokens = list_at(v.merchant_tokens, merchant);
    &&& w.merchant_earnings == v.merchant_earnings.insert(key, now)
    &&& now.withdrawals == before.withdrawals
    &&& now.refunds == before.refunds
    &&& now.accruals.interval == before.accruals.interval + if kind
        == BillingChargeKind::Interval {
        amount as int
    } else {
        0
    }
    &&& now.accruals.usage == before.accruals.usage + if kind == BillingChargeKind::Usage {
        amount as int
    } else {
        0
    }
    &&& now.accruals.one_off == before.accruals.one_off + if kind == BillingChargeKind::OneOff {
        amount as int
    } else {
        0
    }
    &&& w.merchant_tokens == if tokens.contains(token) {
        v.merchant_tokens
    } else {
        v.merchant_tokens.insert(merchant, tokens.push(token))
    }
}

/// Whether `w` is `v` after paying `amount` out of the prepaid balance of subscription `id` to
/// its subscriber, in its token, at the request of `account`: the balance and the accounts go
/// down by the amount, the transfer is asked for and `event` is published.
pub open spec fn pays_back(
    v: VaultState,
    w: VaultState,
    id: u32,
    account: Address,
    amount: i128,
    event: Event,
) -> bool {
    let sub = v.subscriptions[id];
    let now = w.subscriptions[id];
    &&& w == VaultState {
        subscriptions: v.subscriptions.insert(id, now),
        total_accounted: v.total_accounted.insert(sub.token, w.total_accounted[sub.token]),
        actions: w.actions,
        ..v
    }
    &&& now == Subscription { prepaid_balance: now.prepaid_balance, ..sub }
    &&& now.prepaid_balance == sub.prepaid_balance - amount
    &&& w.total_accounted[sub.token] == amount_at(v.total_accounted, sub.token) - amount
    &&& w.actions == v.actions.push(Action::RequireAuth(account)).push(
        Action::Transfer(
            Transfer { token: sub.token, from: v.contract, to: sub.subscriber, amount },
        ),
    ).push(Action::Publish(event))
}

/// Once a subscription is cancelled, expired or archived, or its time is over, its subscriber
/// can withdraw: the whole prepaid balance goes from the vault to the subscriber, in the token
/// of the subscription, whatever the status is. The status stays as it is.
pub proof fn a_subscriber_gets_the_whole_balance_back(
    vault: &mut Vault,
    id: u32,
    subscriber: Address,
    result: Result<(), Error>,
)
    requires
        call_ensures(do_withdraw_subscriber_funds, (vault, id, subscriber), result),
    ensures
        ({
            let v = old(vault)@;
            let sub = v.subscriptions[id];
            let ended = is_closed(sub.status) || sub.status == SubscriptionStatus::Expired
                || time_is_over(sub, v.timestamp);
            result == (if !v.subscriptions.contains_key(id) {
                Err::<(), Error>(Error::NotFound)
            } else if sub.subscriber != subscriber {
                Err(Error::Forbidden)
            } else if !ended {
                Err(Error::InvalidStatusTransition)
            } else if sub.prepaid_balance <= 0 {
                Err(Error::InvalidAmount)
            } else if !in_range(
                amount_at(v.total_accounted, sub.token) - sub.prepaid_balance,
            ) {
                Err(Error::Underflow)
            } else {
                Ok(())
            })
        }),
        result is Ok ==> final(vault)@.subscriptions[id].prepaid_balance == 0,
        result is Ok ==> pays_back(
            old(vault)@,
            final(vault)@,
            id,
            subscriber,
            old(vault)@.subscriptions[id].prepaid_balance,
            Event::SubscriberWithdrawal(
                SubscriberWithdrawalEvent {
                    subscription_id: id,
                    subscriber,
                    token: old(vault)@.subscriptions[id].token,
                    amount: old(vault)@.subscriptions[id].prepaid_balance,
                    timestamp: old(vault)@.timestamp,
                },
            ),
        ),
        result is Err && result != Err::<(), Error>(Error::Underflow) ==> final(vault)@
            == only_asked(old(vault)@, subscriber),
        result is Err ==> final(vault)@.demands() == old(vault)@.demands().push(subscriber),
        result is Err ==> final(vault)@.events() == old(vault)@.events(),
{
    broadcast use {lemma_demands_push, lemma_events_push};

}

/// The admin can pay any positive part of the prepaid balance back to the subscriber, whatever
/// the status is. The status stays as it is.
pub proof fn the_admin_refunds_a_part(
    vault: &mut Vault,
    admin: Address,
    id: u32,
    subscriber: Address,
    amount: i128,
    result: Result<(), Error>,
)
    requires
        call_ensures(do_partial_refund, (vault, admin, id, subscriber, amount), result),
    ensures
        ({
            let v = old(vault)@;
            let sub = v.subscriptions[id];
            result == (if v.admin is None {
                Err::<(), Error>(Error::NotInitialized)
            } else if v.admin->0 != admin {
                Err(Error::Unauthorized)
            } else if amount <= 0 {
                Err(Error::InvalidAmount)
            } else if !v.subscriptions.contains_key(id) {
                Err(Error::NotFound)
            } else if sub.subscriber != subscriber {
                Err(Error::Unauthorized)
            } else if amount > sub.prepaid_balance {
                Err(Error::InsufficientBalance)
            } else if !in_range(amount_at(v.total_accounted, sub.token) - amount) {
                Err(Error::Underflow)
            } else {
                Ok(())
            })
        }),
        result is Ok ==> pays_back(
            old(vault)@,
            final(vault)@,
            id,
            admin,
            amount,
            Event::PartialRefund(
                PartialRefundEvent {
                    subscription_id: id,
                    subscriber,
                    token: old(vault)@.subscriptions[id].token,
                    amount,
                    remaining_balance: final(vault)@.subscriptions[id].prepaid_balance,
                    timestamp: old(vault)@.timestamp,
                },
            ),
        ),
        result is Err && result != Err::<(), Error>(Error::Underflow) ==> final(vault)@
            == only_asked(old(vault)@, admin),
        result is Err ==> final(vault)@.demands() == old(vault)@.demands().push(admin),
        result is Err ==> final(vault)@.events() == old(vault)@.events(),
{
    broadcast use {lemma_demands_push, lemma_events_push};

}

/// The merchant of a subscription with usage billing sets its limits, all of them as asked
/// for. A cap on usage is positive.
pub proof fn usage_limits_are_set_as_asked_for(
    vault: &mut Vault,
    merchant: Address,
    id: u32,
    max_calls: Option<u32>,
    window: u64,
    min_interval: u64,
    cap: Option<i128>,
    result: Result<(), Error>,
)
    requires
        call_ensures(
            do_configure_usage_limits,
            (vault, merchant, id, max_calls, window, min_interval, cap),
            result,
        ),
    ensures
        ({
            let v = old(vault)@;
            let sub = v.subscriptions[id];
            result == (if !v.subscriptions.contains_key(id) {
                Err::<(), Error>(Error::NotFound)
            } else if sub.merchant != merchant {
                Err(Error::Forbidden)
            } else if !sub.usage_enabled {
                Err(Error::UsageNotEnabled)
            } else if cap is Some && cap->0 <= 0 {
                Err(Error::InvalidAmount)
            } else {
                Ok(())
            })
        }),
        final(vault)@ == (VaultState {
            usage_limits: final(vault)@.usage_limits,
            ..only_asked(old(vault)@, merchant)
        }),
        result is Err ==> final(vault)@.usage_limits == old(vault)@.usage_limits,
        result is Ok ==> ({
            let limits = final(vault)@.usage_limits[id];
            &&& final(vault)@.usage_limits == old(vault)@.usage_limits.insert(id, limits)
            &&& limits.rate_limit_max_calls == max_calls
            &&& limits.rate_window_secs == window
            &&& limits.burst_min_interval_secs == min_interval
            &&& limits.usage_cap_units == cap
        }),
{
}

} // verus!
