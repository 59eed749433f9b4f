//! What holds across several operations: what one makes possible, undoes or rules out
//! for the next.

use vstd::prelude::*;

use crate::calls::{
    adds_plan, admin_only, after, at_time, opens_subscription, refusal, signer, subscription_of,
    Call,
};
use crate::events::{lemma_events_push, Action, Event, Transfer};
use crate::laws::calls_change_only_their_part;
use crate::limits::{
    active_below, active_on, credit_limit_refusal, exposure_below, exposure_fits, liability,
    owed_by, MAX_WRITE_PATH_SCAN_DEPTH,
};
use crate::safe_math::fits;
use crate::types::{
    Address, Error, FundsDepositedEvent, Subscription, SubscriptionRecoveryReadyEvent,
    SubscriptionResumedEvent, SubscriptionStatus,
};
use crate::vault::{lookup, VaultState};

verus! {

/// A vault is set up once: it never loses its default token, and cannot be set up again.
pub proof fn a_vault_is_set_up_once(v: VaultState, call: Call, again: Call)
    requires
        v.token is Some,
        again is Init,
    ensures
        after(v, call).token == v.token,
        refusal(after(v, call), again) == Some(Error::AlreadyInitialized),
{
    reveal(refusal);
    calls_change_only_their_part(v, call);
    if call is Init {
        reveal(after);
    }
}

/// What a call sets is what is read back.
pub proof fn settings_are_read_back(v: VaultState, call: Call)
    requires
        refusal(v, call) is None,
    ensures
        match call {
            Call::Init { token, decimals, admin, min_topup, grace_period } => {
                &&& after(v, call).token == Some(token)
                &&& lookup(after(v, call).token_decimals, token) == Some(decimals)
                &&& after(v, call).admin == Some(admin)
                &&& after(v, call).min_topup == Some(min_topup)
                &&& after(v, call).grace_period == Some(grace_period)
            },
            Call::SetMinTopup { min_topup, .. } => after(v, call).min_topup == Some(min_topup),
            Call::SetGracePeriod { grace_period, .. } => after(v, call).grace_period == Some(
                grace_period,
            ),
            Call::AddToken { token, decimals, .. } => lookup(
                after(v, call).token_decimals,
                token,
            ) == Some(decimals),
            Call::RemoveToken { token, .. } => !after(v, call).accepts(token),
            Call::RotateAdmin { new_admin, .. } => after(v, call).admin == Some(new_admin),
            Call::SetProtocolFee { treasury, fee_bps, .. } => after(v, call).fee_bps == Some(
                fee_bps,
            ) && after(v, call).treasury == Some(treasury),
            Call::ConfigureMerchant { merchant, config } => lookup(
                after(v, call).merchant_configs,
                merchant,
            ) == Some(config),
            Call::ConfigureUsage { subscription_id, limits, .. } => lookup(
                after(v, call).usage_limits,
                subscription_id,
            ) == Some(limits),
            Call::SetPlanLimit { plan_template_id, max_active, .. } => after(v, call).plan_limit(
                plan_template_id,
            ) == max_active,
            Call::SetCreditLimit { subscriber, token, limit, .. } => after(v, call).credit_limit(
                subscriber,
                token,
            ) == limit,
            Call::PauseMerchant { merchant } => after(v, call).merchant_is_paused(merchant),
            Call::UnpauseMerchant { merchant } => after(v, call).merchant_is_paused(merchant) == (
            v.merchant_configs.contains_key(merchant) && v.merchant_configs[merchant].is_paused),
            _ => true,
        },
{
    reveal(refusal);
    reveal(after);
}

/// Once administration has been handed over, what is reserved for the admin is refused to the
/// old admin.
pub proof fn the_old_admin_is_refused(v: VaultState, handover: Call, later: Call, now: u64)
    requires
        handover is RotateAdmin,
        refusal(v, handover) is None,
        admin_only(later),
        signer(later) == signer(handover),
    ensures
        refusal(at_time(after(v, handover), now), later) == Some(Error::Unauthorized) || refusal(
            at_time(after(v, handover), now),
            later,
        ) == Some(Error::Forbidden),
{
    let w = at_time(after(v, handover), now);
    assert(w.admin is Some && w.admin != signer(later)) by {
        reveal(refusal);
        reveal(after);
    }
    reveal(refusal);
}

/// A recovery takes no more than what belongs to no one, and its ID cannot be used again.
pub proof fn recoveries_take_the_surplus_once(v: VaultState, call: Call, again: Call, now: u64)
    requires
        refusal(v, call) is None,
        call is Recover,
        again is Recover,
        again->recovery_id == call->recovery_id,
    ensures
        0 < call->Recover_amount <= call->contract_balance - v.accounted(call->Recover_token),
        after(v, call).total_accounted == v.total_accounted,
        refusal(at_time(after(v, call), now), again) is Some,
        again->Recover_admin == call->Recover_admin && again->Recover_amount > 0 ==> refusal(
            at_time(after(v, call), now),
            again,
        ) == Some(Error::Replay),
{
    reveal(refusal);
    reveal(after);
}

/// A recovery that has been executed is never forgotten, and its ID is refused ever after.
pub proof fn recoveries_are_remembered(v: VaultState, call: Call, id: Seq<char>)
    requires
        v.recoveries.contains(id),
    ensures
        after(v, call).recoveries.contains(id),
        call is Recover && call->recovery_id == id ==> {
            &&& refusal(v, call) is Some
            &&& v.admin == Some(call->Recover_admin) && call->Recover_amount > 0 ==> refusal(
                v,
                call,
            ) == Some(Error::Replay)
        },
{
    calls_change_only_their_part(v, call);
    if call is Recover {
        reveal(refusal);
        reveal(after);
    }
}

/// A blocked subscriber cannot open, fund, resume or migrate a subscription.
pub proof fn blocked_subscribers_are_refused(v: VaultState, call: Call)
    requires
        signer(call) is Some,
        v.blocked(signer(call)->0),
    ensures
        opens_subscription(call) || call is Deposit || call is Migrate ==> refusal(v, call) is Some,
        call is Create || call is Subscribe || call is Deposit || call is Migrate ==> refusal(
            v,
            call,
        ) == Some(Error::SubscriberBlocklisted),
        call matches Call::Resume { subscription_id, authorizer } && v.subscriptions.contains_key(
            subscription_id,
        ) && v.subscriptions[subscription_id].subscriber == authorizer ==> refusal(v, call) is Some,
{
    reveal(refusal);
}

/// Pausing a paused subscription changes nothing.
pub proof fn pausing_twice_is_pausing_once(v: VaultState, id: u32, first: Address, second: Address)
    requires
        refusal(v, (Call::Pause { subscription_id: id, authorizer: first })) is None,
        second == v.subscriptions[id].subscriber || second == v.subscriptions[id].merchant,
    ensures
        ({
            let w = after(v, Call::Pause { subscription_id: id, authorizer: first });
            let again = Call::Pause { subscription_id: id, authorizer: second };
            &&& refusal(w, again) is None
            &&& after(w, again) == w.demand(second)
        }),
{
    reveal(refusal);
    reveal(after);
}

/// Resuming undoes pausing: an active subscription is what it was before.
pub proof fn resuming_undoes_pausing(v: VaultState, id: u32, authorizer: Address, now: u64)
    requires
        refusal(v, (Call::Pause { subscription_id: id, authorizer })) is None,
        v.subscriptions[id].status == SubscriptionStatus::Active,
        !v.subscriptions[id].expired_at(now),
        !v.blocked(authorizer),
    ensures
        ({
            let paused = after(v, Call::Pause { subscription_id: id, authorizer });
            let resume = Call::Resume { subscription_id: id, authorizer };
            &&& paused.subscriptions[id].status == SubscriptionStatus::Paused
            &&& refusal(at_time(paused, now), resume) is None
            &&& after(at_time(paused, now), resume).subscriptions == v.subscriptions
        }),
{
    reveal(refusal);
    reveal(after);
    let paused = after(v, Call::Pause { subscription_id: id, authorizer });
    let resume = Call::Resume { subscription_id: id, authorizer };
    assert(after(at_time(paused, now), resume).subscriptions =~= v.subscriptions);
}

/// What a subscription holds when it is cancelled can be withdrawn by the subscriber, all of it
/// and once, at any later time.
pub proof fn cancelling_frees_the_balance(v: VaultState, id: u32, authorizer: Address, now: u64)
    requires
        refusal(v, (Call::Cancel { subscription_id: id, authorizer })) is None,
        0 < v.subscriptions[id].prepaid_balance <= v.accounted(v.subscriptions[id].token),
    ensures
        ({
            let sub = v.subscriptions[id];
            let w = at_time(
                after(v, Call::Cancel { subscription_id: id, authorizer }),
                now,
            );
            let withdraw = Call::WithdrawSubscriber {
                subscription_id: id,
                subscriber: sub.subscriber,
            };
            let paid = after(w, withdraw);
            &&& refusal(w, withdraw) is None
            &&& paid.actions[1] == Action::Transfer(
                Transfer {
                    token: sub.token,
                    from: v.contract,
                    to: sub.subscriber,
                    amount: sub.prepaid_balance,
                },
            )
            &&& paid.subscriptions[id].prepaid_balance == 0
            &&& refusal(paid, withdraw) == Some(Error::InvalidAmount)
        }),
{
    reveal(refusal);
    reveal(after);
}

/// Archiving a subscription leaves its balance for the subscriber to withdraw.
pub proof fn archiving_keeps_the_balance(v: VaultState, id: u32, authorizer: Address, now: u64)
    requires
        refusal(v, (Call::Cleanup { subscription_id: id, authorizer })) is None,
        0 < v.subscriptions[id].prepaid_balance <= v.accounted(v.subscriptions[id].token),
    ensures
        ({
            let sub = v.subscriptions[id];
            let w = at_time(after(v, Call::Cleanup { subscription_id: id, authorizer }), now);
            let withdraw = Call::WithdrawSubscriber {
                subscription_id: id,
                subscriber: sub.subscriber,
            };
            &&& w.subscriptions[id].status == SubscriptionStatus::Archived
            &&& w.subscriptions[id].prepaid_balance == sub.prepaid_balance
            &&& refusal(w, withdraw) is None
        }),
{
    reveal(refusal);
    reveal(after);
}

/// A partial refund of what has been deposited restores the balance.
pub proof fn a_refund_undoes_a_deposit(
    v: VaultState,
    id: u32,
    subscriber: Address,
    admin: Address,
    amount: i128,
)
    requires
        refusal(v, (Call::Deposit { subscription_id: id, subscriber, amount })) is None,
        v.subscriptions[id].prepaid_balance >= 0,
        amount > 0,
        v.admin == Some(admin),
    ensures
        ({
            let sub = v.subscriptions[id];
            let w = after(v, Call::Deposit { subscription_id: id, subscriber, amount });
            let refund = Call::PartialRefund {
                admin,
                subscription_id: id,
                subscriber: sub.subscriber,
                amount,
            };
            &&& refusal(w, refund) is None
            &&& after(w, refund).subscriptions[id].prepaid_balance == sub.prepaid_balance
            &&& after(w, refund).accounted(sub.token) == v.accounted(sub.token)
        }),
{
    reveal(refusal);
    reveal(after);
}

/// Once its time is over, a subscription can neither be funded, charged, paused, resumed nor
/// cancelled, but what it holds can be withdrawn.
pub proof fn an_expired_subscription_only_pays_back(v: VaultState, call: Call, id: u32)
    requires
        v.subscriptions.contains_key(id),
        v.subscriptions[id].expired_at(v.timestamp),
        subscription_of(call) == Some(id),
    ensures
        call is Deposit || call is ChargeOneOff || call is Pause || call is Resume
            || call is Cancel ==> refusal(v, call) is Some,
        v.subscriptions[id].prepaid_balance > 0 && v.accounted(v.subscriptions[id].token) >= 0
            && call == (Call::WithdrawSubscriber {
            subscription_id: id,
            subscriber: v.subscriptions[id].subscriber,
        }) ==> refusal(v, call) is None,
{
    reveal(refusal);
}

/// A one-off charge moves the amount from the subscription to the merchant and never goes
/// beyond the lifetime cap. A charge that reaches the cap cancels the subscription, and
/// nothing is charged after that.
pub proof fn charges_stop_at_the_lifetime_cap(
    v: VaultState,
    id: u32,
    merchant: Address,
    amount: i128,
    again: i128,
    now: u64,
)
    requires
        refusal(v, (Call::ChargeOneOff { subscription_id: id, merchant, amount })) is None,
    ensures
        ({
            let sub = v.subscriptions[id];
            let w = after(v, Call::ChargeOneOff { subscription_id: id, merchant, amount });
            let charged = w.subscriptions[id];
            let next = Call::ChargeOneOff { subscription_id: id, merchant, amount: again };
            &&& charged.lifetime_charged == sub.lifetime_charged + amount
            &&& charged.prepaid_balance == sub.prepaid_balance - amount
            &&& w.merchant_balance(merchant, sub.token) == v.merchant_balance(merchant, sub.token)
                + amount
            &&& sub.lifetime_cap is Some ==> charged.lifetime_charged <= sub.lifetime_cap->0
            &&& sub.lifetime_cap == Some(charged.lifetime_charged) ==> charged.status
                == SubscriptionStatus::Cancelled && refusal(at_time(w, now), next) is Some
        }),
{
    reveal(refusal);
    reveal(after);
}

/// What the subscription with this ID adds to the exposure of `subscriber` in `token`.
spec fn exposure_part(
    subs: Map<u32, Subscription>,
    id: u32,
    subscriber: Address,
    token: Address,
) -> int {
    if owed_by(subs, id, subscriber, token) {
        liability(subs[id])
    } else {
        0
    }
}

proof fn lemma_exposure_insert(
    subs: Map<u32, Subscription>,
    id: u32,
    sub: Subscription,
    bound: nat,
    subscriber: Address,
    token: Address,
)
    requires
        bound <= u32::MAX,
    ensures
        exposure_below(subs.insert(id, sub), bound, subscriber, token) == exposure_below(
            subs,
            bound,
            subscriber,
            token,
        ) + (if id < bound {
            exposure_part(subs.insert(id, sub), id, subscriber, token) - exposure_part(
                subs,
                id,
                subscriber,
                token,
            )
        } else {
            0
        }),
    decreases bound,
{
    if bound > 0 {
        lemma_exposure_insert(subs, id, sub, (bound - 1) as nat, subscriber, token);
    }
}

/// A new subscription of a subscriber with a credit limit raises the exposure by its amount,
/// and the exposure stays within the limit.
pub proof fn new_subscriptions_respect_the_credit_limit(
    v: VaultState,
    call: Call,
    subscriber: Address,
    token: Address,
)
    requires
        refusal(v, call) is None,
        opens_subscription(call),
        signer(call) == Some(subscriber),
        !v.subscriptions.contains_key(v.next_id),
        after(v, call).subscriptions[v.next_id].token == token,
        after(v, call).subscriptions[v.next_id].amount > 0,
        v.credit_limit(subscriber, token) != 0,
    ensures
        ({
            let now = after(v, call);
            let before = exposure_below(v.subscriptions, v.next_id as nat, subscriber, token);
            let exposure = exposure_below(
                now.subscriptions,
                now.next_id as nat,
                subscriber,
                token,
            );
            &&& exposure == before + now.subscriptions[v.next_id].amount
            &&& exposure <= v.credit_limit(subscriber, token)
        }),
{
    let now = after(v, call);
    let id = v.next_id;
    assert({
        let amount = now.subscriptions[id].amount;
        &&& now.subscriptions == v.subscriptions.insert(id, now.subscriptions[id])
        &&& now.subscriptions[id].subscriber == subscriber
        &&& now.subscriptions[id].prepaid_balance == 0
        &&& now.subscriptions[id].status == SubscriptionStatus::Active
        &&& now.next_id == id + 1
        &&& id <= MAX_WRITE_PATH_SCAN_DEPTH
        &&& credit_limit_refusal(v, subscriber, token, amount) is None
    }) by {
        reveal(refusal);
        reveal(after);
    }
    lemma_exposure_insert(
        v.subscriptions,
        id,
        now.subscriptions[id],
        (id + 1) as nat,
        subscriber,
        token,
    );
    lemma_exposure_is_below(v, subscriber, token);
}

proof fn lemma_exposure_is_below(v: VaultState, subscriber: Address, token: Address)
    requires
        v.exposure(subscriber, token) is Ok,
    ensures
        v.exposure(subscriber, token)->Ok_0 == exposure_below(
            v.subscriptions,
            v.next_id as nat,
            subscriber,
            token,
        ),
{
    lemma_exposure_fits(v.subscriptions, v.next_id, v.next_id as nat, subscriber, token);
}

proof fn lemma_exposure_fits(
    subs: Map<u32, Subscription>,
    next_id: u32,
    bound: nat,
    subscriber: Address,
    token: Address,
)
    requires
        bound <= next_id,
        forall|id: u32| id < next_id ==> #[trigger] exposure_fits(subs, id, subscriber, token),
    ensures
        fits(exposure_below(subs, bound, subscriber, token)),
    decreases bound,
{
    if bound > 0 {
        lemma_exposure_fits(subs, next_id, (bound - 1) as nat, subscriber, token);
        assert(exposure_fits(subs, (bound - 1) as u32, subscriber, token));
    }
}

/// A deposit by a subscriber with a credit limit raises the exposure by its amount, and the
/// exposure stays within the limit, unless the deposit makes the subscription active again.
pub proof fn deposits_respect_the_credit_limit(
    v: VaultState,
    id: u32,
    subscriber: Address,
    amount: i128,
)
    requires
        refusal(v, (Call::Deposit { subscription_id: id, subscriber, amount })) is None,
        id < v.next_id,
        amount > 0,
        v.subscriptions[id].subscriber == subscriber,
        v.credit_limit(subscriber, v.subscriptions[id].token) != 0,
    ensures
        ({
            let sub = v.subscriptions[id];
            let now = after(v, Call::Deposit { subscription_id: id, subscriber, amount });
            let before = exposure_below(v.subscriptions, v.next_id as nat, subscriber, sub.token);
            let exposure = exposure_below(
                now.subscriptions,
                now.next_id as nat,
                subscriber,
                sub.token,
            );
            now.subscriptions[id].status == sub.status ==> exposure == before + amount && exposure
                <= v.credit_limit(subscriber, sub.token)
        }),
{
    let call = Call::Deposit { subscription_id: id, subscriber, amount };
    let sub = v.subscriptions[id];
    let now = after(v, call);
    assert({
        &&& v.subscriptions.contains_key(id)
        &&& now.subscriptions =~= v.subscriptions.insert(id, now.subscriptions[id])
        &&& now.subscriptions[id].subscriber == subscriber
        &&& now.subscriptions[id].token == sub.token
        &&& now.subscriptions[id].amount == sub.amount
        &&& now.subscriptions[id].prepaid_balance == sub.prepaid_balance + amount
        &&& now.next_id == v.next_id
        &&& credit_limit_refusal(v, subscriber, sub.token, amount) is None
    }) by {
        reveal(refusal);
        reveal(after);
    }
    lemma_exposure_insert(
        v.subscriptions,
        id,
        now.subscriptions[id],
        v.next_id as nat,
        subscriber,
        sub.token,
    );
    lemma_exposure_is_below(v, subscriber, sub.token);
}

proof fn lemma_active_insert(
    v: VaultState,
    sub: Subscription,
    plan: u32,
    bound: nat,
    subscriber: Address,
)
    requires
        bound <= v.next_id,
    ensures
        active_below(
            v.subscriptions.insert(v.next_id, sub),
            v.subscription_plans.insert(v.next_id, plan),
            bound,
            subscriber,
            plan,
        ) == active_below(v.subscriptions, v.subscription_plans, bound, subscriber, plan),
    decreases bound,
{
    if bound > 0 {
        lemma_active_insert(v, sub, plan, (bound - 1) as nat, subscriber);
    }
}

/// A new subscription on a plan template with a limit is one more active subscription of the
/// subscriber, and their number stays within the limit.
pub proof fn new_subscriptions_respect_the_plan_limit(
    v: VaultState,
    subscriber: Address,
    plan_template_id: u32,
)
    requires
        refusal(v, (Call::Subscribe { subscriber, plan_template_id })) is None,
        v.plan_limit(plan_template_id) != 0,
    ensures
        ({
            let now = after(v, Call::Subscribe { subscriber, plan_template_id });
            &&& now.active_count(subscriber, plan_template_id) == v.active_count(
                subscriber,
                plan_template_id,
            ) + 1
            &&& now.active_count(subscriber, plan_template_id) <= v.plan_limit(plan_template_id)
        }),
{
    reveal(refusal);
    reveal(after);
    let now = after(v, Call::Subscribe { subscriber, plan_template_id });
    let sub = now.subscriptions[v.next_id];
    assert(now.subscriptions == v.subscriptions.insert(v.next_id, sub));
    lemma_active_insert(v, sub, plan_template_id, v.next_id as nat, subscriber);
    assert(active_on(
        now.subscriptions,
        now.subscription_plans,
        v.next_id,
        subscriber,
        plan_template_id,
    ));
}

/// A plan template never changes: an update adds a version under a new ID.
pub proof fn plan_templates_are_permanent(v: VaultState, call: Call, id: u32)
    requires
        v.plans.contains_key(id),
        id != v.next_plan_id,
    ensures
        lookup(after(v, call).plans, id) == Some(v.plans[id]),
{
    calls_change_only_their_part(v, call);
    if adds_plan(call) {
        reveal(after);
    }
}

/// An update yields the next version of the same family, of the same merchant, in the same
/// token and with the same billing model.
pub proof fn updates_yield_the_next_version(v: VaultState, call: Call)
    requires
        refusal(v, call) is None,
        call is UpdatePlan,
        v.plans[call->UpdatePlan_plan_template_id].version < u32::MAX,
    ensures
        ({
            let existing = v.plans[call->UpdatePlan_plan_template_id];
            let updated = after(v, call).plans[v.next_plan_id];
            &&& updated.version == existing.version + 1
            &&& updated.template_key == existing.template_key
            &&& updated.merchant == existing.merchant
            &&& updated.token == existing.token
            &&& updated.usage_enabled == existing.usage_enabled
        }),
{
    reveal(refusal);
    reveal(after);
}

/// A migration leads to a newer version of the same family, and changes neither the token nor
/// the billing model, nor what has been paid in and charged.
pub proof fn migrations_lead_forward(v: VaultState, call: Call)
    requires
        refusal(v, call) is None,
        call is Migrate,
    ensures
        ({
            let id = call->Migrate_subscription_id;
            let old_plan = v.plans[v.subscription_plans[id]];
            let new_plan = v.plans[call->new_plan_template_id];
            let sub = v.subscriptions[id];
            let moved = after(v, call).subscriptions[id];
            &&& after(v, call).subscription_plans[id] == call->new_plan_template_id
            &&& new_plan.template_key == old_plan.template_key
            &&& new_plan.version > old_plan.version
            &&& moved.amount == new_plan.amount
            &&& moved.interval_seconds == new_plan.interval_seconds
            &&& moved.lifetime_cap == new_plan.lifetime_cap
            &&& moved.token == sub.token
            &&& moved.usage_enabled == sub.usage_enabled
            &&& moved.status == sub.status
            &&& moved.prepaid_balance == sub.prepaid_balance
            &&& moved.lifetime_charged == sub.lifetime_charged
        }),
{
    reveal(refusal);
    reveal(after);
}

/// A deposit that covers the next charge of a subscription that ran out of funds makes it
/// active, and any other deposit leaves the status as it is. After the deposit itself the
/// recovery is announced, and then that the subscription has been resumed.
pub proof fn deposits_recover_what_ran_out(
    v: VaultState,
    id: u32,
    subscriber: Address,
    amount: i128,
)
    requires
        refusal(v, (Call::Deposit { subscription_id: id, subscriber, amount })) is None,
    ensures
        ({
            let sub = v.subscriptions[id];
            let w = after(v, Call::Deposit { subscription_id: id, subscriber, amount });
            let now = w.subscriptions[id];
            let ran_out = sub.status == SubscriptionStatus::InsufficientBalance || sub.status
                == SubscriptionStatus::GracePeriod;
            let deposited = v.events().push(
                Event::FundsDeposited(
                    FundsDepositedEvent {
                        subscription_id: id,
                        subscriber,
                        amount,
                        prepaid_balance: now.prepaid_balance,
                    },
                ),
            );
            &&& now.prepaid_balance == sub.prepaid_balance + amount
            &&& if ran_out && now.prepaid_balance >= sub.amount {
                &&& now.status == SubscriptionStatus::Active
                &&& w.events() == deposited.push(
                    Event::SubscriptionRecoveryReady(
                        SubscriptionRecoveryReadyEvent {
                            subscription_id: id,
                            subscriber: sub.subscriber,
                            prepaid_balance: now.prepaid_balance,
                            required_amount: sub.amount,
                            timestamp: v.timestamp,
                        },
                    ),
                ).push(
                    Event::SubscriptionResumed(
                        SubscriptionResumedEvent {
                            subscription_id: id,
                            authorizer: sub.subscriber,
                        },
                    ),
                )
            } else {
                &&& now.status == sub.status
                &&& w.events() == deposited
            }
        }),
{
    broadcast use lemma_events_push;

    reveal(refusal);
    reveal(after);
}

} // verus!
