//! What an operation asks of the outside world: authorizations, token transfers
//! and published events.

use vstd::prelude::*;

use crate::types::{
    Address, AdminRotatedEvent, ContractInitializedEvent, FundsDepositedEvent,
    LifetimeCapReachedEvent, MerchantPausedEvent, MerchantRefundEvent, MerchantUnpausedEvent,
    MerchantWithdrawalEvent, OneOffChargedEvent, PartialRefundEvent, PlanMaxActiveUpdatedEvent,
    PlanTemplateCreatedEvent, PlanTemplateUpdatedEvent, ProtocolFeeConfiguredEvent, RecoveryEvent,
    SubscriberWithdrawalEvent, SubscriptionArchivedEvent, SubscriptionCancelledEvent,
    SubscriptionChargedEvent, SubscriptionCreatedEvent, SubscriptionExpiredEvent,
    SubscriptionMigratedEvent, SubscriptionPausedEvent, SubscriptionRecoveryReadyEvent,
    SubscriptionResumedEvent,
};

verus! {

/// An event that an operation publishes.
#[derive(Clone, Copy, Debug, PartialEq, Eq, Structural)]
pub enum Event {
    Initialized(ContractInitializedEvent),
    MinTopupUpdated(i128),
    AdminRotated(AdminRotatedEvent),
    ProtocolFeeConfigured(ProtocolFeeConfiguredEvent),
    Recovery(RecoveryEvent),
    MerchantPaused(MerchantPausedEvent),
    MerchantUnpaused(MerchantUnpausedEvent),
    MerchantWithdrawal(MerchantWithdrawalEvent),
    MerchantRefund(MerchantRefundEvent),
    SubscriptionCreated(SubscriptionCreatedEvent),
    FundsDeposited(FundsDepositedEvent),
    SubscriptionCharged(SubscriptionChargedEvent),
    SubscriptionExpired(SubscriptionExpiredEvent),
    SubscriptionRecoveryReady(SubscriptionRecoveryReadyEvent),
    SubscriptionPaused(SubscriptionPausedEvent),
    SubscriptionResumed(SubscriptionResumedEvent),
    SubscriptionCancelled(SubscriptionCancelledEvent),
    OneOffCharged(OneOffChargedEvent),
    LifetimeCapReached(LifetimeCapReachedEvent),
    SubscriptionArchived(SubscriptionArchivedEvent),
    SubscriberWithdrawal(SubscriberWithdrawalEvent),
    PartialRefund(PartialRefundEvent),
    PlanTemplateCreated(PlanTemplateCreatedEvent),
    PlanTemplateUpdated(PlanTemplateUpdatedEvent),
    PlanMaxActiveUpdated(PlanMaxActiveUpdatedEvent),
    SubscriptionMigrated(SubscriptionMigratedEvent),
}

/// What an event is about, published as the topics that follow the event's name.
#[derive(Clone, Copy, Debug, PartialEq, Eq, Structural)]
pub enum Subject {
    /// The event concerns the vault as a whole.
    Vault,
    /// A subscription, a plan template or a family of plan templates.
    Id(u32),
    /// An account.
    Account(Address),
    /// An account and a token.
    AccountToken(Address, Address),
}

impl Event {
    /// The name under which indexers find the event.
    pub open spec fn topic(self) -> Seq<char> {
        match self {
            Event::Initialized(_) => "initialized"@,
            Event::MinTopupUpdated(_) => "min_topup_updated"@,
            Event::AdminRotated(_) => "admin_rotated"@,
            Event::ProtocolFeeConfigured(_) => "protocol_fee_configured"@,
            Event::Recovery(_) => "recovery"@,
            Event::MerchantPaused(_) => "merchant_paused"@,
            Event::MerchantUnpaused(_) => "merchant_unpaused"@,
            Event::MerchantWithdrawal(_) => "withdrawn"@,
            Event::MerchantRefund(_) => "merchant_refund"@,
            Event::SubscriptionCreated(_) => "created"@,
            Event::FundsDeposited(_) => "deposited"@,
            Event::SubscriptionCharged(_) => "charged"@,
            Event::SubscriptionExpired(_) => "subscription_expired"@,
            Event::SubscriptionRecoveryReady(_) => "recovery_ready"@,
            Event::SubscriptionPaused(_) => "paused"@,
            Event::SubscriptionResumed(_) => "resumed"@,
            Event::SubscriptionCancelled(_) => "cancelled"@,
            Event::OneOffCharged(_) => "oneoff_ch"@,
            Event::LifetimeCapReached(_) => "lifetime_cap_reached"@,
            Event::SubscriptionArchived(_) => "subscription_archived"@,
            Event::SubscriberWithdrawal(_) => "sub_withdrawn"@,
            Event::PartialRefund(_) => "partial_refund"@,
            Event::PlanTemplateCreated(_) => "plan_template_created"@,
            Event::PlanTemplateUpdated(_) => "plan_template_updated"@,
            Event::PlanMaxActiveUpdated(_) => "plan_max_active_set"@,
            Event::SubscriptionMigrated(_) => "subscription_migrated"@,
        }
    }

    /// The entity that the event is about.
    pub open spec fn about(self) -> Subject {
        match self {
            Event::Initialized(_) => Subject::Vault,
            Event::MinTopupUpdated(_) => Subject::Vault,
            Event::AdminRotated(_) => Subject::Vault,
            Event::ProtocolFeeConfigured(_) => Subject::Vault,
            Event::Recovery(e) => Subject::Account(e.admin),
            Event::MerchantPaused(e) => Subject::Account(e.merchant),
            Event::MerchantUnpaused(e) => Subject::Account(e.merchant),
            Event::MerchantWithdrawal(e) => Subject::AccountToken(e.merchant, e.token),
            Event::MerchantRefund(e) => Subject::Account(e.merchant),
            Event::SubscriptionCreated(e) => Subject::Id(e.subscription_id),
            Event::FundsDeposited(e) => Subject::Id(e.subscription_id),
            Event::SubscriptionCharged(e) => Subject::Id(e.subscription_id),
            Event::SubscriptionExpired(e) => Subject::Id(e.subscription_id),
            Event::SubscriptionRecoveryReady(e) => Subject::Id(e.subscription_id),
            Event::SubscriptionPaused(e) => Subject::Id(e.subscription_id),
            Event::SubscriptionResumed(e) => Subject::Id(e.subscription_id),
            Event::SubscriptionCancelled(e) => Subject::Id(e.subscription_id),
            Event::OneOffCharged(e) => Subject::Id(e.subscription_id),
            Event::LifetimeCapReached(e) => Subject::Id(e.subscription_id),
            Event::SubscriptionArchived(e) => Subject::Id(e.subscription_id),
            Event::SubscriberWithdrawal(e) => Subject::Id(e.subscription_id),
            Event::PartialRefund(e) => Subject::Id(e.subscription_id),
            Event::PlanTemplateCreated(e) => Subject::Id(e.plan_template_id),
            Event::PlanTemplateUpdated(e) => Subject::Id(e.template_key),
            Event::PlanMaxActiveUpdated(e) => Subject::Id(e.plan_template_id),
            Event::SubscriptionMigrated(e) => Subject::Id(e.subscription_id),
        }
    }

    /// The first topic of the event.
    pub fn name(&self) -> (name: &'static str)
        ensures
            name@ == self.topic(),
    {
        match self {
            Event::Initialized(_) => "initialized",
            Event::MinTopupUpdated(_) => "min_topup_updated",
            Event::AdminRotated(_) => "admin_rotated",
            Event::ProtocolFeeConfigured(_) => "protocol_fee_configured",
            Event::Recovery(_) => "recovery",
            Event::MerchantPaused(_) => "merchant_paused",
            Event::MerchantUnpaused(_) => "merchant_unpaused",
            Event::MerchantWithdrawal(_) => "withdrawn",
            Event::MerchantRefund(_) => "merchant_refund",
            Event::SubscriptionCreated(_) => "created",
            Event::FundsDeposited(_) => "deposited",
            Event::SubscriptionCharged(_) => "charged",
            Event::SubscriptionExpired(_) => "subscription_expired",
            Event::SubscriptionRecoveryReady(_) => "recovery_ready",
            Event::SubscriptionPaused(_) => "paused",
            Event::SubscriptionResumed(_) => "resumed",
            Event::SubscriptionCancelled(_) => "cancelled",
            Event::OneOffCharged(_) => "oneoff_ch",
            Event::LifetimeCapReached(_) => "lifetime_cap_reached",
            Event::SubscriptionArchived(_) => "subscription_archived",
            Event::SubscriberWithdrawal(_) => "sub_withdrawn",
            Event::PartialRefund(_) => "partial_refund",
            Event::PlanTemplateCreated(_) => "plan_template_created",
            Event::PlanTemplateUpdated(_) => "plan_template_updated",
            Event::PlanMaxActiveUpdated(_) => "plan_max_active_set",
            Event::SubscriptionMigrated(_) => "subscription_migrated",
        }
    }

    /// The topics that follow the name.
    pub fn subject(&self) -> (subject: Subject)
        ensures
            subject == self.about(),
    {
        match *self {
            Event::Initialized(_) => Subject::Vault,
            Event::MinTopupUpdated(_) => Subject::Vault,
            Event::AdminRotated(_) => Subject::Vault,
            Event::ProtocolFeeConfigured(_) => Subject::Vault,
            Event::Recovery(e) => Subject::Account(e.admin),
            Event::MerchantPaused(e) => Subject::Account(e.merchant),
            Event::MerchantUnpaused(e) => Subject::Account(e.merchant),
            Event::MerchantWithdrawal(e) => Subject::AccountToken(e.merchant, e.token),
            Event::MerchantRefund(e) => Subject::Account(e.merchant),
            Event::SubscriptionCreated(e) => Subject::Id(e.subscription_id),
            Event::FundsDeposited(e) => Subject::Id(e.subscription_id),
            Event::SubscriptionCharged(e) => Subject::Id(e.subscription_id),
            Event::SubscriptionExpired(e) => Subject::Id(e.subscription_id),
            Event::SubscriptionRecoveryReady(e) => Subject::Id(e.subscription_id),
            Event::SubscriptionPaused(e) => Subject::Id(e.subscription_id),
            Event::SubscriptionResumed(e) => Subject::Id(e.subscription_id),
            Event::SubscriptionCancelled(e) => Subject::Id(e.subscription_id),
            Event::OneOffCharged(e) => Subject::Id(e.subscription_id),
            Event::LifetimeCapReached(e) => Subject::Id(e.subscription_id),
            Event::SubscriptionArchived(e) => Subject::Id(e.subscription_id),
            Event::SubscriberWithdrawal(e) => Subject::Id(e.subscription_id),
            Event::PartialRefund(e) => Subject::Id(e.subscription_id),
            Event::PlanTemplateCreated(e) => Subject::Id(e.plan_template_id),
            Event::PlanTemplateUpdated(e) => Subject::Id(e.template_key),
            Event::PlanMaxActiveUpdated(e) => Subject::Id(e.plan_template_id),
            Event::SubscriptionMigrated(e) => Subject::Id(e.subscription_id),
        }
    }
}

/// A movement of tokens between two accounts.
#[derive(Clone, Copy, Debug, PartialEq, Eq, Structural)]
pub struct Transfer {
    pub token: Address,
    pub from: Address,
    pub to: Address,
    pub amount: i128,
}

/// One request to the outside world.
#[derive(Clone, Copy, Debug, PartialEq, Eq, Structural)]
pub enum Action {
    /// The account must have authorized the operation, or nothing of it takes effect.
    RequireAuth(Address),
    /// The tokens move, or nothing of the operation takes effect.
    Transfer(Transfer),
    /// The event is published.
    Publish(Event),
}

/// The event that an action publishes, if it publishes one.
pub open spec fn published_by(action: Action) -> Option<Event> {
    match action {
        Action::Publish(event) => Some(event),
        _ => None,
    }
}

/// The events that a list of actions publishes, in order.
pub open spec fn events_of(actions: Seq<Action>) -> Seq<Event> {
    actions.filter_map(|action: Action| published_by(action))
}

/// An action adds the event that it publishes to the events of those before it.
pub broadcast proof fn lemma_events_push(actions: Seq<Action>, action: Action)
    ensures
        #[trigger] events_of(actions.push(action)) == (match published_by(action) {
            Some(event) => events_of(actions).push(event),
            None => events_of(actions),
        }),
{
    reveal(Seq::filter_map);
    assert(actions.push(action).drop_last() =~= actions);
    assert(events_of(actions.push(action)) =~= match published_by(action) {
        Some(event) => events_of(actions).push(event),
        None => events_of(actions),
    });
}

/// The account whose authorization an action demands, if it demands one.
pub open spec fn demanded_by(action: Action) -> Option<Address> {
    match action {
        Action::RequireAuth(account) => Some(account),
        _ => None,
    }
}

/// The accounts whose authorization a list of actions demands, in order.
pub open spec fn demands_of(actions: Seq<Action>) -> Seq<Address> {
    actions.filter_map(|action: Action| demanded_by(action))
}

/// An action adds the account that it demands to the accounts of those before it.
pub broadcast proof fn lemma_demands_push(actions: Seq<Action>, action: Action)
    ensures
        #[trigger] demands_of(actions.push(action)) == (match demanded_by(action) {
            Some(account) => demands_of(actions).push(account),
            None => demands_of(actions),
        }),
{
    reveal(Seq::filter_map);
    assert(actions.push(action).drop_last() =~= actions);
    assert(demands_of(actions.push(action)) =~= match demanded_by(action) {
        Some(account) => demands_of(actions).push(account),
        None => demands_of(actions),
    });
}

/// Whether two events are of the same kind.
pub open spec fn same_kind(a: Event, b: Event) -> bool {
    match a {
        Event::Initialized(_) => b is Initialized,
        Event::MinTopupUpdated(_) => b is MinTopupUpdated,
        Event::AdminRotated(_) => b is AdminRotated,
        Event::ProtocolFeeConfigured(_) => b is ProtocolFeeConfigured,
        Event::Recovery(_) => b is Recovery,
        Event::MerchantPaused(_) => b is MerchantPaused,
        Event::MerchantUnpaused(_) => b is MerchantUnpaused,
        Event::MerchantWithdrawal(_) => b is MerchantWithdrawal,
        Event::MerchantRefund(_) => b is MerchantRefund,
        Event::SubscriptionCreated(_) => b is SubscriptionCreated,
        Event::FundsDeposited(_) => b is FundsDeposited,
        Event::SubscriptionCharged(_) => b is SubscriptionCharged,
        Event::SubscriptionExpired(_) => b is SubscriptionExpired,
        Event::SubscriptionRecoveryReady(_) => b is SubscriptionRecoveryReady,
        Event::SubscriptionPaused(_) => b is SubscriptionPaused,
        Event::SubscriptionResumed(_) => b is SubscriptionResumed,
        Event::SubscriptionCancelled(_) => b is SubscriptionCancelled,
        Event::OneOffCharged(_) => b is OneOffCharged,
        Event::LifetimeCapReached(_) => b is LifetimeCapReached,
        Event::SubscriptionArchived(_) => b is SubscriptionArchived,
        Event::SubscriberWithdrawal(_) => b is SubscriberWithdrawal,
        Event::PartialRefund(_) => b is PartialRefund,
        Event::PlanTemplateCreated(_) => b is PlanTemplateCreated,
        Event::PlanTemplateUpdated(_) => b is PlanTemplateUpdated,
        Event::PlanMaxActiveUpdated(_) => b is PlanMaxActiveUpdated,
        Event::SubscriptionMigrated(_) => b is SubscriptionMigrated,
    }
}

/// Topics tell the kinds of events apart: whoever filters by the topic of one kind sees the
/// events of that kind and no others.
pub proof fn topics_tell_events_apart(a: Event, b: Event)
    ensures
        a.topic() == b.topic() <==> same_kind(a, b),
{
    reveal_strlit("initialized");
    assert("initialized"@.len() == 11);
    reveal_strlit("min_topup_updated");
    assert("min_topup_updated"@.len() == 17);
    reveal_strlit("admin_rotated");
    assert("admin_rotated"@.len() == 13);
    reveal_strlit("protocol_fee_configured");
    assert("protocol_fee_configured"@.len() == 23);
    reveal_strlit("recovery");
    assert("recovery"@.len() == 8);
    reveal_strlit("merchant_paused");
    assert("merchant_paused"@.len() == 15);
    reveal_strlit("merchant_unpaused");
    assert("merchant_unpaused"@.len() == 17);
    reveal_strlit("withdrawn");
    assert("withdrawn"@.len() == 9);
    reveal_strlit("merchant_refund");
    assert("merchant_refund"@.len() == 15);
    reveal_strlit("created");
    assert("created"@.len() == 7);
    reveal_strlit("deposited");
    assert("deposited"@.len() == 9);
    reveal_strlit("charged");
    assert("charged"@.len() == 7);
    reveal_strlit("subscription_expired");
    assert("subscription_expired"@.len() == 20);
    reveal_strlit("recovery_ready");
    assert("recovery_ready"@.len() == 14);
    reveal_strlit("paused");
    assert("paused"@.len() == 6);
    reveal_strlit("resumed");
    assert("resumed"@.len() == 7);
    reveal_strlit("cancelled");
    assert("cancelled"@.len() == 9);
    reveal_strlit("oneoff_ch");
    assert("oneoff_ch"@.len() == 9);
    reveal_strlit("lifetime_cap_reached");
    assert("lifetime_cap_reached"@.len() == 20);
    reveal_strlit("subscription_archived");
    assert("subscription_archived"@.len() == 21);
    reveal_strlit("sub_withdrawn");
    assert("sub_withdrawn"@.len() == 13);
    reveal_strlit("partial_refund");
    assert("partial_refund"@.len() == 14);
    reveal_strlit("plan_template_created");
    assert("plan_template_created"@.len() == 21);
    reveal_strlit("plan_template_updated");
    assert("plan_template_updated"@.len() == 21);
    reveal_strlit("plan_max_active_set");
    assert("plan_max_active_set"@.len() == 19);
    reveal_strlit("subscription_migrated");
    assert("subscription_migrated"@.len() == 21);
    assert("created"@[1] != "charged"@[1]);
    assert("created"@[0] != "resumed"@[0]);
    assert("charged"@[0] != "resumed"@[0]);
    assert("withdrawn"@[0] != "deposited"@[0]);
    assert("withdrawn"@[0] != "cancelled"@[0]);
    assert("withdrawn"@[0] != "oneoff_ch"@[0]);
    assert("deposited"@[0] != "cancelled"@[0]);
    assert("deposited"@[0] != "oneoff_ch"@[0]);
    assert("cancelled"@[0] != "oneoff_ch"@[0]);
    assert("admin_rotated"@[0] != "sub_withdrawn"@[0]);
    assert("recovery_ready"@[0] != "partial_refund"@[0]);
    assert("merchant_paused"@[9] != "merchant_refund"@[9]);
    assert("min_topup_updated"@[1] != "merchant_unpaused"@[1]);
    assert("subscription_expired"@[0] != "lifetime_cap_reached"@[0]);
    assert("subscription_archived"@[0] != "plan_template_created"@[0]);
    assert("subscription_archived"@[0] != "plan_template_updated"@[0]);
    assert("subscription_archived"@[13] != "subscription_migrated"@[13]);
    assert("plan_template_created"@[14] != "plan_template_updated"@[14]);
    assert("plan_template_created"@[0] != "subscription_migrated"@[0]);
    assert("plan_template_updated"@[0] != "subscription_migrated"@[0]);
}

} // verus!
