//! What is promised of single records, counters and amounts.

use vstd::prelude::*;

use crate::accounting::{add_total_accounted, get_total_accounted, sub_total_accounted};
use crate::blocklist::{is_blocklisted, require_not_blocklisted};
use crate::events::{
    lemma_demands_push, lemma_events_push, Action, Event, Subject, Transfer,
};
use crate::plans::next_plan_id;
use crate::promises::{amount_at, flagged, in_range, is_closed, list_at, number_at, one_up};
use crate::queries::get_subscription;
use crate::safe_math::{
    next_count, safe_add, safe_add_balance, safe_sub, validate_non_negative,
};
use crate::state_machine::validate_status_transition;
use crate::statements::append_statement;
use crate::subscription::next_id;
use crate::types::{
    Address, BillingChargeKind, Error, StatementId, Subscription, SubscriptionStatus,
};
use crate::vault::{Vault, VaultState};

verus! {

/// A status can always stay. Besides, a subscription becomes active again after a pause or
/// after it ran out of funds; only an active one is paused or put into a grace period; funds run
/// out while it is active or in a grace period; it is cancelled or expires as long as it has
/// not ended; and it is archived only after that.
pub proof fn each_status_has_its_predecessors(
    from: &SubscriptionStatus,
    to: &SubscriptionStatus,
    result: Result<(), Error>,
)
    requires
        call_ensures(validate_status_transition, (from, to), result),
    ensures
        ({
            let goes_on = !is_closed(*from) && *from != SubscriptionStatus::Expired;
            result is Ok <==> *from == *to || match *to {
                SubscriptionStatus::Active => goes_on,
                SubscriptionStatus::Paused => *from == SubscriptionStatus::Active,
                SubscriptionStatus::GracePeriod => *from == SubscriptionStatus::Active,
                SubscriptionStatus::InsufficientBalance => *from == SubscriptionStatus::Active
                    || *from == SubscriptionStatus::GracePeriod,
                SubscriptionStatus::Cancelled => goes_on,
                SubscriptionStatus::Expired => goes_on,
                SubscriptionStatus::Archived => *from == SubscriptionStatus::Cancelled || *from
                    == SubscriptionStatus::Expired,
            }
        }),
        result is Err ==> result == Err::<(), Error>(Error::InvalidStatusTransition),
{
}

/// Sums and differences of amounts are exact, or refused where they are out of range.
pub proof fn arithmetic_is_exact(
    a: i128,
    b: i128,
    sum: Result<i128, Error>,
    difference: Result<i128, Error>,
    topped_up: Result<i128, Error>,
    valid: Result<(), Error>,
)
    requires
        call_ensures(safe_add, (a, b), sum),
        call_ensures(safe_sub, (a, b), difference),
        call_ensures(safe_add_balance, (a, b), topped_up),
        call_ensures(validate_non_negative, (b,), valid),
    ensures
        in_range(a + b) ==> sum is Ok && sum->Ok_0 == a + b,
        !in_range(a + b) ==> sum == Err::<i128, Error>(Error::Overflow),
        in_range(a - b) ==> difference is Ok && difference->Ok_0 == a - b,
        !in_range(a - b) ==> difference == Err::<i128, Error>(Error::Underflow),
        b >= 0 ==> valid is Ok && topped_up == sum,
        b < 0 ==> valid == Err::<(), Error>(Error::Underflow) && topped_up == Err::<i128, Error>(
            Error::Underflow,
        ),
{
}

/// A counter goes up by one, and starts over after its largest value.
pub proof fn counters_go_up_by_one(value: u32, next: u32)
    requires
        call_ensures(next_count, (value,), next),
    ensures
        next == one_up(value),
{
}

/// Taking the next subscription ID hands out that ID and advances the counter, no more.
pub proof fn the_next_subscription_id_is_taken(vault: &mut Vault, id: u32)
    requires
        call_ensures(next_id, (vault,), id),
    ensures
        id == old(vault)@.next_id,
        final(vault)@ == (VaultState { next_id: final(vault)@.next_id, ..old(vault)@ }),
        final(vault)@.next_id == one_up(id),
{
}

/// Taking the next plan template ID hands out that ID and advances the counter, no more.
pub proof fn the_next_plan_id_is_taken(vault: &mut Vault, id: u32)
    requires
        call_ensures(next_plan_id, (vault,), id),
    ensures
        id == old(vault)@.next_plan_id,
        final(vault)@ == (VaultState { next_plan_id: final(vault)@.next_plan_id, ..old(vault)@ }),
        final(vault)@.next_plan_id == one_up(id),
{
}

/// The total that is accounted for in a token is what is stored for it.
pub proof fn the_accounted_total_is_read(vault: &Vault, token: &Address, total: i128)
    requires
        call_ensures(get_total_accounted, (vault, token), total),
    ensures
        total == amount_at(vault@.total_accounted, *token),
{
}

/// What is accounted for in a token goes up by the amount, unless it would leave its range.
pub proof fn the_accounted_total_goes_up(
    vault: &mut Vault,
    token: &Address,
    amount: i128,
    result: Result<(), Error>,
)
    requires
        call_ensures(add_total_accounted, (vault, token, amount), result),
    ensures
        ({
            let total = amount_at(old(vault)@.total_accounted, *token) + amount;
            if in_range(total) {
                &&& result is Ok
                &&& final(vault)@ == VaultState {
                    total_accounted: old(vault)@.total_accounted.insert(*token, total as i128),
                    ..old(vault)@
                }
            } else {
                result == Err::<(), Error>(Error::Overflow) && final(vault)@ == old(vault)@
            }
        }),
{
}

/// What is accounted for in a token goes down by the amount, unless it would leave its range.
pub proof fn the_accounted_total_goes_down(
    vault: &mut Vault,
    token: &Address,
    amount: i128,
    result: Result<(), Error>,
)
    requires
        call_ensures(sub_total_accounted, (vault, token, amount), result),
    ensures
        ({
            let total = amount_at(old(vault)@.total_accounted, *token) - amount;
            if in_range(total) {
                &&& result is Ok
                &&& final(vault)@ == VaultState {
                    total_accounted: old(vault)@.total_accounted.insert(*token, total as i128),
                    ..old(vault)@
                }
            } else {
                result == Err::<(), Error>(Error::Underflow) && final(vault)@ == old(vault)@
            }
        }),
{
}

/// An account is blocked exactly when the blocklist says so.
pub proof fn the_blocklist_decides(
    vault: &Vault,
    account: &Address,
    blocked: bool,
    result: Result<(), Error>,
)
    requires
        call_ensures(is_blocklisted, (vault, account), blocked),
        call_ensures(require_not_blocklisted, (vault, account), result),
    ensures
        blocked == flagged(vault@.blocklist, *account),
        blocked ==> result == Err::<(), Error>(Error::SubscriberBlocklisted),
        !blocked ==> result is Ok,
{
}

/// A subscription that is stored is what is read, and only that.
pub proof fn a_stored_subscription_is_read(
    vault: &Vault,
    id: u32,
    result: Result<Subscription, Error>,
)
    requires
        call_ensures(get_subscription, (vault, id), result),
    ensures
        vault@.subscriptions.contains_key(id) ==> result == Ok::<Subscription, Error>(
            vault@.subscriptions[id],
        ),
        !vault@.subscriptions.contains_key(id) ==> result == Err::<Subscription, Error>(
            Error::NotFound,
        ),
{
}

/// The time of a subscription is over from its expiration timestamp on, and never without one.
pub proof fn time_is_over_from_the_expiration_on(sub: &Subscription, now: u64, expired: bool)
    requires
        call_ensures(Subscription::is_expired, (sub, now), expired),
    ensures
        sub.expires_at is None ==> !expired,
        sub.expires_at is Some ==> expired == (now >= sub.expires_at->0),
{
}

/// A charge gets the next row of the billing history of its subscription, with the time at
/// which it is recorded, unless the numbers of the rows run out.
pub proof fn a_charge_gets_the_next_row(
    vault: &mut Vault,
    id: u32,
    amount: i128,
    merchant: Address,
    kind: BillingChargeKind,
    period_start: u64,
    period_end: u64,
    result: Result<(), Error>,
)
    requires
        call_ensures(
            append_statement,
            (vault, id, amount, merchant, kind, period_start, period_end),
            result,
        ),
    ensures
        ({
            let v = old(vault)@;
            let w = final(vault)@;
            let row = number_at(v.statement_counts, id) as u32;
            let key = StatementId { subscription_id: id, sequence: row };
            if row == u32::MAX {
                result == Err::<(), Error>(Error::Overflow) && w == v
            } else {
                &&& result is Ok
                &&& w == VaultState {
                    statements: v.statements.insert(key, w.statements[key]),
                    statement_counts: v.statement_counts.insert(id, (row + 1) as u32),
                    ..v
                }
                &&& w.statements[key].subscription_id == id
                &&& w.statements[key].sequence == row
                &&& w.statements[key].charged_at == v.timestamp
                &&& w.statements[key].period_start == period_start
                &&& w.statements[key].period_end == period_end
                &&& w.statements[key].amount == amount
                &&& w.statements[key].merchant == merchant
                &&& w.statements[key].kind == kind
            }
        }),
{
}

/// Asking for an authorization, publishing an event and asking for a transfer each add that
/// request at the end, and change nothing that is stored.
pub proof fn requests_are_added_at_the_end(
    vault: &mut Vault,
    account: Address,
    event: Event,
    token: Address,
    from: Address,
    to: Address,
    amount: i128,
)
    ensures
        call_ensures(Vault::require_auth, (vault, account), ()) ==> final(vault)@ == (VaultState {
            actions: old(vault)@.actions.push(Action::RequireAuth(account)),
            ..old(vault)@
        }),
        call_ensures(Vault::publish, (vault, event), ()) ==> final(vault)@ == (VaultState {
            actions: old(vault)@.actions.push(Action::Publish(event)),
            ..old(vault)@
        }),
        call_ensures(Vault::transfer, (vault, token, from, to, amount), ()) ==> final(vault)@ == (
        VaultState {
            actions: old(vault)@.actions.push(
                Action::Transfer(Transfer { token, from, to, amount }),
            ),
            ..old(vault)@
        }),
{
}

/// Storing a subscription replaces what was stored under its ID, and nothing else. Indexing it
/// adds its ID at the end of one list.
pub proof fn subscriptions_are_stored_and_indexed(
    vault: &mut Vault,
    id: u32,
    sub: Subscription,
    account: Address,
)
    ensures
        call_ensures(Vault::put_subscription, (vault, id, sub), ()) ==> final(vault)@ == (
        VaultState { subscriptions: old(vault)@.subscriptions.insert(id, sub), ..old(vault)@ }),
        call_ensures(Vault::index_by_merchant, (vault, account, id), ()) ==> final(vault)@ == (
        VaultState {
            merchant_subs: old(vault)@.merchant_subs.insert(
                account,
                list_at(old(vault)@.merchant_subs, account).push(id),
            ),
            ..old(vault)@
        }),
        call_ensures(Vault::index_by_token, (vault, account, id), ()) ==> final(vault)@ == (
        VaultState {
            token_subs: old(vault)@.token_subs.insert(
                account,
                list_at(old(vault)@.token_subs, account).push(id),
            ),
            ..old(vault)@
        }),
{
}

/// The events and the demands of a vault are those of its requests, in order: a published event
/// is one more event, an authorization asked for is one more demand, and nothing else is
/// either.
pub proof fn requests_are_told_apart(v: VaultState, account: Address, event: Event, t: Transfer)
    ensures
        ({
            let asked = VaultState { actions: v.actions.push(Action::RequireAuth(account)), ..v };
            let published = VaultState { actions: v.actions.push(Action::Publish(event)), ..v };
            let transferred = VaultState { actions: v.actions.push(Action::Transfer(t)), ..v };
            let idle = VaultState { actions: Seq::empty(), ..v };
            &&& idle.events().len() == 0 && idle.demands().len() == 0
            &&& asked.events() == v.events()
            &&& asked.demands() == v.demands().push(account)
            &&& published.events() == v.events().push(event)
            &&& published.demands() == v.demands()
            &&& transferred.events() == v.events()
            &&& transferred.demands() == v.demands()
        }),
{
    broadcast use {lemma_demands_push, lemma_events_push};

    reveal(Seq::filter_map);
}

/// The events and the demands that are listed are those of the vault.
pub proof fn events_and_demands_are_listed(
    vault: &Vault,
    events: Vec<Event>,
    accounts: Vec<Address>,
)
    requires
        call_ensures(Vault::events, (vault,), events),
        call_ensures(Vault::demands, (vault,), accounts),
    ensures
        events@ == vault@.events(),
        accounts@ == vault@.demands(),
{
}

/// The subscription that an event is about, if it is about one.
pub open spec fn subscription_in(event: Event) -> Option<u32> {
    match event {
        Event::SubscriptionCreated(e) => Some(e.subscription_id),
        Event::FundsDeposited(e) => Some(e.subscription_id),
        Event::SubscriptionCharged(e) => Some(e.subscription_id),
        Event::SubscriptionExpired(e) => Some(e.subscription_id),
        Event::SubscriptionRecoveryReady(e) => Some(e.subscription_id),
        Event::SubscriptionPaused(e) => Some(e.subscription_id),
        Event::SubscriptionResumed(e) => Some(e.subscription_id),
        Event::SubscriptionCancelled(e) => Some(e.subscription_id),
        Event::OneOffCharged(e) => Some(e.subscription_id),
        Event::LifetimeCapReached(e) => Some(e.subscription_id),
        Event::SubscriptionArchived(e) => Some(e.subscription_id),
        Event::SubscriberWithdrawal(e) => Some(e.subscription_id),
        Event::PartialRefund(e) => Some(e.subscription_id),
        Event::SubscriptionMigrated(e) => Some(e.subscription_id),
        _ => None,
    }
}

/// Whoever follows a subscription finds every event about it under its ID.
pub proof fn events_are_found_under_their_subscription(event: &Event, subject: Subject)
    requires
        call_ensures(Event::subject, (event,), subject),
    ensures
        subscription_in(*event) is Some ==> subject == Subject::Id(subscription_in(*event)->0),
{
}

/// A new vault knows where and when it is, and holds nothing.
pub proof fn a_new_vault_holds_nothing(contract: Address, timestamp: u64, vault: Vault)
    requires
        call_ensures(Vault::new, (contract, timestamp), vault),
    ensures
        vault@.contract == contract,
        vault@.timestamp == timestamp,
        vault@.token is None && vault@.admin is None && vault@.min_topup is None
            && vault@.grace_period is None && vault@.schema_version is None
            && vault@.fee_bps is None && vault@.treasury is None,
        vault@.next_id == 0 && vault@.next_plan_id == 0,
        vault@.accepted_tokens.len() == 0 && vault@.actions.len() == 0,
        forall|t: Address| !(#[trigger] vault@.token_decimals.contains_key(t)),
        forall|t: Address| !(#[trigger] vault@.total_accounted.contains_key(t)),
        forall|t: Address| !(#[trigger] vault@.token_subs.contains_key(t)),
        forall|id: u32| !(#[trigger] vault@.subscriptions.contains_key(id)),
        forall|id: u32| !(#[trigger] vault@.plans.contains_key(id)),
        forall|id: u32| !(#[trigger] vault@.subscription_plans.contains_key(id)),
        forall|id: u32| !(#[trigger] vault@.plan_limits.contains_key(id)),
        forall|id: u32| !(#[trigger] vault@.usage_limits.contains_key(id)),
        forall|id: u32| !(#[trigger] vault@.statement_counts.contains_key(id)),
        forall|a: Address| !(#[trigger] vault@.blocklist.contains_key(a)),
        forall|m: Address| !(#[trigger] vault@.merchant_paused.contains_key(m)),
        forall|m: Address| !(#[trigger] vault@.merchant_configs.contains_key(m)),
        forall|m: Address| !(#[trigger] vault@.merchant_subs.contains_key(m)),
        forall|m: Address| !(#[trigger] vault@.merchant_tokens.contains_key(m)),
        forall|id: Seq<char>| !(#[trigger] vault@.recoveries.contains(id)),
        vault@.credit_limits.dom().is_empty() && vault@.merchant_balances.dom().is_empty()
            && vault@.merchant_earnings.dom().is_empty() && vault@.statements.dom().is_empty(),
{
}

} // verus!
