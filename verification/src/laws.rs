//! What holds of every operation of the vault.

use vstd::prelude::*;

use crate::calls::{
    admin_only, after, changes_only_its_part, refusal, signer, subscription_of, Call,
};
use crate::events::{lemma_demands_push, lemma_events_push, Event, Subject};
use crate::state_machine::allowed;
use crate::plans::migrate_after;
use crate::subscription::{
    cancel_after, cap_reached, charge_after, charged, cleanup_after, deposit_after,
    pause_after, recovers, resume_after,
};
use crate::types::{Address, Error, Subscription, SubscriptionStatus};
use crate::vault::VaultState;

verus! {

/// How many events a call that succeeds publishes.
pub open spec fn event_count(v: VaultState, call: Call) -> nat {
    match call {
        Call::SetGracePeriod { .. } => 0,
        Call::AddToken { .. } => 0,
        Call::RemoveToken { .. } => 0,
        Call::ConfigureMerchant { .. } => 0,
        Call::ConfigureUsage { .. } => 0,
        Call::SetCreditLimit { .. } => 0,
        Call::PauseMerchant { merchant } => if v.merchant_is_paused(merchant) {
            0
        } else {
            1
        },
        Call::UnpauseMerchant { merchant } => if v.merchant_is_paused(merchant) {
            1
        } else {
            0
        },
        Call::Pause { subscription_id, .. } => if v.subscriptions[subscription_id].status
            == SubscriptionStatus::Paused {
            0
        } else {
            1
        },
        Call::Resume { subscription_id, .. } => if v.subscriptions[subscription_id].status
            == SubscriptionStatus::Active {
            0
        } else {
            1
        },
        Call::Cleanup { subscription_id, .. } => if v.subscriptions[subscription_id].status
            == SubscriptionStatus::Archived {
            0
        } else {
            1
        },
        Call::Deposit { subscription_id, amount, .. } => {
            let sub = v.subscriptions[subscription_id];
            let balance = (sub.prepaid_balance + amount) as i128;
            if recovers(Subscription { prepaid_balance: balance, ..sub }) {
                3
            } else {
                1
            }
        },
        Call::ChargeOneOff { subscription_id, amount, .. } => if cap_reached(
            charged(v.subscriptions[subscription_id], amount),
        ) {
            2
        } else {
            1
        },
        _ => 1,
    }
}

/// The first topic of the first event that a call publishes.
pub open spec fn first_topic(call: Call) -> Seq<char> {
    match call {
        Call::Init { .. } => "initialized"@,
        Call::SetMinTopup { .. } => "min_topup_updated"@,
        Call::RotateAdmin { .. } => "admin_rotated"@,
        Call::Recover { .. } => "recovery"@,
        Call::SetProtocolFee { .. } => "protocol_fee_configured"@,
        Call::PauseMerchant { .. } => "merchant_paused"@,
        Call::UnpauseMerchant { .. } => "merchant_unpaused"@,
        Call::WithdrawMerchant { .. } => "withdrawn"@,
        Call::RefundByMerchant { .. } => "merchant_refund"@,
        Call::CreateInDefaultToken { .. } => "created"@,
        Call::Create { .. } => "created"@,
        Call::Subscribe { .. } => "created"@,
        Call::Deposit { .. } => "deposited"@,
        Call::Cancel { .. } => "cancelled"@,
        Call::Pause { .. } => "paused"@,
        Call::Resume { .. } => "resumed"@,
        Call::ChargeOneOff { .. } => "oneoff_ch"@,
        Call::Cleanup { .. } => "subscription_archived"@,
        Call::WithdrawSubscriber { .. } => "sub_withdrawn"@,
        Call::PartialRefund { .. } => "partial_refund"@,
        Call::CreatePlan { .. } => "plan_template_created"@,
        Call::CreatePlanWithToken { .. } => "plan_template_created"@,
        Call::UpdatePlan { .. } => "plan_template_updated"@,
        Call::Migrate { .. } => "subscription_migrated"@,
        Call::SetPlanLimit { .. } => "plan_max_active_set"@,
        _ => Seq::empty(),
    }
}

/// What the events that a call publishes are about.
pub open spec fn subject_of(v: VaultState, call: Call) -> Subject {
    match call {
        Call::Recover { admin, .. } => Subject::Account(admin),
        Call::PauseMerchant { merchant } => Subject::Account(merchant),
        Call::UnpauseMerchant { merchant } => Subject::Account(merchant),
        Call::WithdrawMerchant { merchant, token, .. } => Subject::AccountToken(merchant, token),
        Call::RefundByMerchant { merchant, .. } => Subject::Account(merchant),
        Call::CreateInDefaultToken { .. } => Subject::Id(v.next_id),
        Call::Create { .. } => Subject::Id(v.next_id),
        Call::Subscribe { .. } => Subject::Id(v.next_id),
        Call::Deposit { subscription_id, .. } => Subject::Id(subscription_id),
        Call::Cancel { subscription_id, .. } => Subject::Id(subscription_id),
        Call::Pause { subscription_id, .. } => Subject::Id(subscription_id),
        Call::Resume { subscription_id, .. } => Subject::Id(subscription_id),
        Call::ChargeOneOff { subscription_id, .. } => Subject::Id(subscription_id),
        Call::Cleanup { subscription_id, .. } => Subject::Id(subscription_id),
        Call::WithdrawSubscriber { subscription_id, .. } => Subject::Id(subscription_id),
        Call::PartialRefund { subscription_id, .. } => Subject::Id(subscription_id),
        Call::CreatePlan { .. } => Subject::Id(v.next_plan_id),
        Call::CreatePlanWithToken { .. } => Subject::Id(v.next_plan_id),
        Call::UpdatePlan { plan_template_id, .. } => Subject::Id(
            v.plans[plan_template_id].template_key,
        ),
        Call::Migrate { subscription_id, .. } => Subject::Id(subscription_id),
        Call::SetPlanLimit { plan_template_id, .. } => Subject::Id(plan_template_id),
        _ => Subject::Vault,
    }
}

/// Whether `now` holds `count` events more than `before`, the first of them with the given
/// topic and all of them about `subject`.
pub open spec fn adds_events(
    before: Seq<Event>,
    now: Seq<Event>,
    count: nat,
    topic: Seq<char>,
    subject: Subject,
) -> bool {
    &&& before.is_prefix_of(now)
    &&& now.len() == before.len() + count
    &&& count > 0 ==> now[before.len() as int].topic() == topic
    &&& forall|i: int| before.len() <= i < now.len() ==> (#[trigger] now[i]).about() == subject
}

/// Whether a call publishes what it should.
pub open spec fn publishes_its_events(v: VaultState, call: Call) -> bool {
    adds_events(
        v.events(),
        after(v, call).events(),
        event_count(v, call),
        first_topic(call),
        subject_of(v, call),
    )
}

/// What a call does in general: this is proved call by call, and taken apart into laws below.
spec fn behaves(v: VaultState, call: Call) -> bool {
    let now = after(v, call);
    &&& changes_only_its_part(v, call, now)
    &&& now.demands() == v.demands() || signer(call) is Some && now.demands() == v.demands().push(
        signer(call)->0,
    )
    &&& match refusal(v, call) {
        None => {
            &&& signer(call) is Some ==> v.demand(signer(call)->0).actions.is_prefix_of(
                now.actions,
            )
            &&& signer(call) is Some ==> now.demands() == v.demands().push(signer(call)->0)
            &&& publishes_its_events(v, call)
        },
        Some(Error::Overflow) => now.events() == v.events(),
        Some(Error::Underflow) => now.events() == v.events(),
        Some(_) => now.events() == v.events() && (now == v || signer(call) is Some && now
            == v.demand(signer(call)->0)),
    }
}

proof fn lemma_settings_calls_behave(v: VaultState, call: Call)
    requires
        call is Init || call is SetMinTopup || call is SetGracePeriod || call is AddToken
            || call is RemoveToken || call is RotateAdmin || call is SetProtocolFee,
    ensures
        behaves(v, call),
{
    broadcast use {lemma_demands_push, lemma_events_push};

    reveal(refusal);
    reveal(after);
}

proof fn lemma_limit_calls_behave(v: VaultState, call: Call)
    requires
        call is ConfigureUsage || call is SetPlanLimit || call is SetCreditLimit,
    ensures
        behaves(v, call),
{
    broadcast use {lemma_demands_push, lemma_events_push};

    reveal(refusal);
    reveal(after);
}

proof fn lemma_merchant_calls_behave(v: VaultState, call: Call)
    requires
        call is PauseMerchant || call is UnpauseMerchant || call is ConfigureMerchant,
    ensures
        behaves(v, call),
{
    broadcast use {lemma_demands_push, lemma_events_push};

    reveal(refusal);
    reveal(after);
}

proof fn lemma_payout_calls_behave(v: VaultState, call: Call)
    requires
        call is WithdrawMerchant || call is RefundByMerchant || call is Recover,
    ensures
        behaves(v, call),
{
    broadcast use {lemma_demands_push, lemma_events_push};

    reveal(refusal);
    reveal(after);
}

proof fn lemma_payback_calls_behave(v: VaultState, call: Call)
    requires
        call is WithdrawSubscriber || call is PartialRefund,
    ensures
        behaves(v, call),
{
    broadcast use {lemma_demands_push, lemma_events_push};

    reveal(refusal);
    reveal(after);
}

proof fn lemma_deposit_calls_behave(v: VaultState, call: Call)
    requires
        call is Deposit,
    ensures
        behaves(v, call),
{
    broadcast use {lemma_demands_push, lemma_events_push};

    reveal(refusal);
    reveal(after);
}

proof fn lemma_charge_calls_behave(v: VaultState, call: Call)
    requires
        call is ChargeOneOff,
    ensures
        behaves(v, call),
{
    broadcast use {lemma_demands_push, lemma_events_push};

    reveal(refusal);
    reveal(after);
}

proof fn lemma_status_calls_behave(v: VaultState, call: Call)
    requires
        call is Cancel || call is Pause || call is Resume || call is Cleanup,
    ensures
        behaves(v, call),
{
    broadcast use {lemma_demands_push, lemma_events_push};

    reveal(refusal);
    reveal(after);
}

proof fn lemma_creation_calls_behave(v: VaultState, call: Call)
    requires
        call is CreateInDefaultToken || call is Create || call is Subscribe,
    ensures
        behaves(v, call),
{
    broadcast use {lemma_demands_push, lemma_events_push};

    reveal(refusal);
    reveal(after);
}

proof fn lemma_plan_calls_behave(v: VaultState, call: Call)
    requires
        call is CreatePlan || call is CreatePlanWithToken || call is UpdatePlan || call is Migrate,
    ensures
        behaves(v, call),
{
    broadcast use {lemma_demands_push, lemma_events_push};

    reveal(refusal);
    reveal(after);
}

proof fn lemma_calls_behave(v: VaultState, call: Call)
    ensures
        behaves(v, call),
{
    match call {
        Call::Init { .. } => lemma_settings_calls_behave(v, call),
        Call::SetMinTopup { .. } => lemma_settings_calls_behave(v, call),
        Call::SetGracePeriod { .. } => lemma_settings_calls_behave(v, call),
        Call::AddToken { .. } => lemma_settings_calls_behave(v, call),
        Call::RemoveToken { .. } => lemma_settings_calls_behave(v, call),
        Call::RotateAdmin { .. } => lemma_settings_calls_behave(v, call),
        Call::SetProtocolFee { .. } => lemma_settings_calls_behave(v, call),
        Call::ConfigureUsage { .. } => lemma_limit_calls_behave(v, call),
        Call::SetPlanLimit { .. } => lemma_limit_calls_behave(v, call),
        Call::SetCreditLimit { .. } => lemma_limit_calls_behave(v, call),
        Call::PauseMerchant { .. } => lemma_merchant_calls_behave(v, call),
        Call::UnpauseMerchant { .. } => lemma_merchant_calls_behave(v, call),
        Call::ConfigureMerchant { .. } => lemma_merchant_calls_behave(v, call),
        Call::WithdrawMerchant { .. } => lemma_payout_calls_behave(v, call),
        Call::RefundByMerchant { .. } => lemma_payout_calls_behave(v, call),
        Call::Recover { .. } => lemma_payout_calls_behave(v, call),
        Call::WithdrawSubscriber { .. } => lemma_payback_calls_behave(v, call),
        Call::PartialRefund { .. } => lemma_payback_calls_behave(v, call),
        Call::Deposit { .. } => lemma_deposit_calls_behave(v, call),
        Call::ChargeOneOff { .. } => lemma_charge_calls_behave(v, call),
        Call::Cancel { .. } => lemma_status_calls_behave(v, call),
        Call::Pause { .. } => lemma_status_calls_behave(v, call),
        Call::Resume { .. } => lemma_status_calls_behave(v, call),
        Call::Cleanup { .. } => lemma_status_calls_behave(v, call),
        Call::CreateInDefaultToken { .. } => lemma_creation_calls_behave(v, call),
        Call::Create { .. } => lemma_creation_calls_behave(v, call),
        Call::Subscribe { .. } => lemma_creation_calls_behave(v, call),
        Call::CreatePlan { .. } => lemma_plan_calls_behave(v, call),
        Call::CreatePlanWithToken { .. } => lemma_plan_calls_behave(v, call),
        Call::UpdatePlan { .. } => lemma_plan_calls_behave(v, call),
        Call::Migrate { .. } => lemma_plan_calls_behave(v, call),
    }
}

/// A call that succeeds has first demanded the authorization of the account that is
/// responsible for it. Only setting the vault up demands none.
pub proof fn success_is_authorized(v: VaultState, call: Call)
    requires
        refusal(v, call) is None,
        signer(call) is Some,
    ensures
        v.demand(signer(call)->0).actions.is_prefix_of(after(v, call).actions),
{
    lemma_calls_behave(v, call);
}

/// A call, whether it succeeds or is refused, demands the authorization of no one but the
/// account that is responsible for it, and of that account at most once. A call that succeeds
/// has demanded it.
pub proof fn only_the_signer_is_asked(v: VaultState, call: Call)
    ensures
        after(v, call).demands() == v.demands() || signer(call) is Some && after(v, call).demands()
            == v.demands().push(signer(call)->0),
        refusal(v, call) is None && signer(call) is Some ==> after(v, call).demands()
            == v.demands().push(signer(call)->0),
{
    lemma_calls_behave(v, call);
}

/// What is reserved for the admin succeeds only for the admin.
pub proof fn admin_calls_need_the_admin(v: VaultState, call: Call)
    requires
        admin_only(call),
        refusal(v, call) is None,
    ensures
        v.admin == signer(call),
{
    reveal(refusal);
}

/// A call that is refused publishes nothing.
pub proof fn refusal_publishes_nothing(v: VaultState, call: Call)
    requires
        refusal(v, call) is Some,
    ensures
        after(v, call).events() == v.events(),
{
    lemma_calls_behave(v, call);
}

/// A call that is refused changes nothing that is stored and moves no tokens, unless an
/// amount leaves its range.
pub proof fn refusal_changes_nothing(v: VaultState, call: Call)
    requires
        refusal(v, call) is Some,
        refusal(v, call) != Some(Error::Overflow),
        refusal(v, call) != Some(Error::Underflow),
    ensures
        after(v, call) == v || signer(call) is Some && after(v, call) == v.demand(signer(call)->0),
{
    lemma_calls_behave(v, call);
}

/// A call that succeeds adds exactly its events to those published before it: one for every
/// change that indexers follow, with the topic and the subject by which they find it.
pub proof fn success_publishes_its_events(v: VaultState, call: Call)
    requires
        refusal(v, call) is None,
    ensures
        publishes_its_events(v, call),
{
    lemma_calls_behave(v, call);
}

/// A call changes no part of the vault but the one that it is there to change.
pub proof fn calls_change_only_their_part(v: VaultState, call: Call)
    ensures
        changes_only_its_part(v, call, after(v, call)),
{
    lemma_calls_behave(v, call);
}

/// Whether a subscription may get from status `from` to status `to` in one operation.
///
/// Archiving a subscription whose time ran out unnoticed is two steps at once.
pub open spec fn moves(from: SubscriptionStatus, to: SubscriptionStatus) -> bool {
    ||| allowed(from, to)
    ||| allowed(from, SubscriptionStatus::Expired) && allowed(SubscriptionStatus::Expired, to)
}

/// Whether `now` can be what became of `before`: the parties, the token and the dates stay,
/// the status follows the state machine, and what has been charged is never taken back.
pub open spec fn follows(before: Subscription, now: Subscription) -> bool {
    &&& now.subscriber == before.subscriber
    &&& now.merchant == before.merchant
    &&& now.token == before.token
    &&& now.usage_enabled == before.usage_enabled
    &&& now.start_time == before.start_time
    &&& now.expires_at == before.expires_at
    &&& now.last_payment_timestamp == before.last_payment_timestamp
    &&& now.grace_start_timestamp == before.grace_start_timestamp
    &&& moves(before.status, now.status)
    &&& now.lifetime_charged >= before.lifetime_charged
}

proof fn lemma_deposit_follows(v: VaultState, id: u32, subscriber: Address, amount: i128)
    requires
        v.subscriptions.contains_key(id),
    ensures
        deposit_after(v, id, subscriber, amount).subscriptions.contains_key(id),
        follows(
            v.subscriptions[id],
            deposit_after(v, id, subscriber, amount).subscriptions[id],
        ),
{
}

proof fn lemma_charge_follows(v: VaultState, id: u32, merchant: Address, amount: i128)
    requires
        v.subscriptions.contains_key(id),
    ensures
        charge_after(v, id, merchant, amount).subscriptions.contains_key(id),
        follows(v.subscriptions[id], charge_after(v, id, merchant, amount).subscriptions[id]),
{
}

/// No call deletes a subscription or turns it into another one.
pub proof fn subscriptions_are_kept(v: VaultState, call: Call, id: u32)
    requires
        v.subscriptions.contains_key(id),
        id != v.next_id,
    ensures
        after(v, call).subscriptions.contains_key(id),
        follows(v.subscriptions[id], after(v, call).subscriptions[id]),
{
    if subscription_of(call) != Some(id) {
        calls_change_only_their_part(v, call);
        assert(after(v, call).subscription(id) == v.subscription(id));
    } else {
        reveal(after);
        match call {
            Call::Deposit { subscriber, amount, .. } => {
                lemma_deposit_follows(v, id, subscriber, amount);
            },
            Call::ChargeOneOff { merchant, amount, .. } => {
                lemma_charge_follows(v, id, merchant, amount);
            },
            Call::Cancel { authorizer, .. } => {
                assert(follows(
                    v.subscriptions[id],
                    cancel_after(v, id, authorizer).subscriptions[id],
                ));
            },
            Call::Pause { authorizer, .. } => {
                assert(follows(
                    v.subscriptions[id],
                    pause_after(v, id, authorizer).subscriptions[id],
                ));
            },
            Call::Resume { authorizer, .. } => {
                assert(follows(
                    v.subscriptions[id],
                    resume_after(v, id, authorizer).subscriptions[id],
                ));
            },
            Call::Cleanup { authorizer, .. } => {
                assert(follows(
                    v.subscriptions[id],
                    cleanup_after(v, id, authorizer).subscriptions[id],
                ));
            },
            Call::Migrate { subscriber, new_plan_template_id, .. } => {
                assert(follows(
                    v.subscriptions[id],
                    migrate_after(v, subscriber, id, new_plan_template_id).subscriptions[id],
                ));
            },
            _ => {},
        }
    }
}

/// An archived subscription stays archived, and a cancelled or expired one can only be
/// archived: no operation brings it back.
pub proof fn ended_subscriptions_stay_ended(from: SubscriptionStatus, to: SubscriptionStatus)
    requires
        moves(from, to),
    ensures
        from == SubscriptionStatus::Archived ==> to == SubscriptionStatus::Archived,
        from == SubscriptionStatus::Cancelled ==> to == SubscriptionStatus::Cancelled || to
            == SubscriptionStatus::Archived,
        from == SubscriptionStatus::Expired ==> to == SubscriptionStatus::Expired || to
            == SubscriptionStatus::Archived,
{
}

} // verus!
