//! What the users of a vault are promised.
//!
//! A law in these modules speaks of every run of one operation: of the vault before and after
//! the run, of the arguments and of what came back. It says when the operation is carried out
//! and why it is refused otherwise, and which records and which requests to the outside world
//! a run that is carried out leaves, in terms of the stored records alone.

use vstd::prelude::*;

use crate::events::Action;
use crate::limits::{
    active_below, concurrency_refusal, credit_limit_refusal, exposure_below,
    exposure_fits,
};
use crate::types::{
    AccountToken, AccruedTotals, Address, Error, Subscription, SubscriptionStatus, TokenEarnings,
};
use crate::vault::VaultState;

pub mod limits;
pub mod merchants;
pub mod plans;
pub mod records;
pub mod settings;
pub mod subscriptions;

verus! {

/// Whether `value` can be stored as an amount.
pub open spec fn in_range(value: int) -> bool {
    i128::MIN <= value && value <= i128::MAX
}

/// The amount stored under `key`, zero if none is.
pub open spec fn amount_at<K>(amounts: Map<K, i128>, key: K) -> int {
    if amounts.contains_key(key) {
        amounts[key] as int
    } else {
        0
    }
}

/// The number stored under `key`, zero if none is.
pub open spec fn number_at<K>(numbers: Map<K, u32>, key: K) -> int {
    if numbers.contains_key(key) {
        numbers[key] as int
    } else {
        0
    }
}

/// The number after `value` in a counter of 32 bits, which starts over after its largest value.
pub open spec fn one_up(value: u32) -> int {
    (value + 1) % 0x1_0000_0000
}

/// The list stored under `key`, empty if none is.
pub open spec fn list_at<K, T>(lists: Map<K, Seq<T>>, key: K) -> Seq<T> {
    if lists.contains_key(key) {
        lists[key]
    } else {
        Seq::empty()
    }
}

/// Whether `account` is flagged.
pub open spec fn flagged(flags: Map<Address, bool>, account: Address) -> bool {
    flags.contains_key(account) && flags[account]
}

/// The key of what belongs to an account in a token.
pub open spec fn of(account: Address, token: Address) -> AccountToken {
    AccountToken { account, token }
}

/// Whether the time of a subscription is over.
pub open spec fn time_is_over(sub: Subscription, now: u64) -> bool {
    sub.expires_at is Some && sub.expires_at->0 <= now
}

/// Whether a subscription has ended for good.
pub open spec fn is_closed(status: SubscriptionStatus) -> bool {
    status == SubscriptionStatus::Cancelled || status == SubscriptionStatus::Archived
}

/// Whether a subscription stands still for lack of funds.
pub open spec fn out_of_funds(status: SubscriptionStatus) -> bool {
    status == SubscriptionStatus::InsufficientBalance || status == SubscriptionStatus::GracePeriod
}

/// What is left of a run that was refused: the question for the authorization of `account`.
pub open spec fn only_asked(v: VaultState, account: Address) -> VaultState {
    VaultState { actions: v.actions.push(Action::RequireAuth(account)), ..v }
}

/// What is recorded of the earnings of `merchant` in `token`, all zero if nothing is.
pub open spec fn recorded(v: VaultState, merchant: Address, token: Address) -> TokenEarnings {
    if v.merchant_earnings.contains_key(of(merchant, token)) {
        v.merchant_earnings[of(merchant, token)]
    } else {
        TokenEarnings {
            accruals: AccruedTotals { interval: 0, usage: 0, one_off: 0 },
            withdrawals: 0,
            refunds: 0,
        }
    }
}

/// The sum of `term` over the first `count` numbers.
pub open spec fn sum(term: spec_fn(int) -> int, count: nat) -> int
    decreases count,
{
    if count == 0 {
        0
    } else {
        sum(term, (count - 1) as nat) + term(count - 1)
    }
}

/// Whether subscription `id` is stored, belongs to `subscriber` and is settled in `token`.
pub open spec fn belongs(v: VaultState, id: int, subscriber: Address, token: Address) -> bool {
    &&& v.subscriptions.contains_key(id as u32)
    &&& v.subscriptions[id as u32].subscriber == subscriber
    &&& v.subscriptions[id as u32].token == token
}

/// What subscription `id` contributes to what `subscriber` is exposed to in `token`: what is
/// paid in and, while it is active, the next interval.
pub open spec fn share(v: VaultState, subscriber: Address, token: Address) -> spec_fn(int) -> int {
    |id: int|
        if !belongs(v, id, subscriber, token) {
            0
        } else if v.subscriptions[id as u32].status == SubscriptionStatus::Active {
            v.subscriptions[id as u32].prepaid_balance + v.subscriptions[id as u32].amount
        } else {
            v.subscriptions[id as u32].prepaid_balance as int
        }
}

/// What `subscriber` is exposed to in `token`, over all subscriptions.
pub open spec fn total_exposure(v: VaultState, subscriber: Address, token: Address) -> int {
    sum(share(v, subscriber, token), v.next_id as nat)
}

/// Whether subscription `id` can be added to the exposure from those before it: the running
/// total stays an amount after what is paid in and after the next interval.
pub open spec fn can_be_added(
    v: VaultState,
    id: int,
    subscriber: Address,
    token: Address,
) -> bool {
    let before = sum(share(v, subscriber, token), id as nat);
    belongs(v, id, subscriber, token) ==> in_range(
        before + v.subscriptions[id as u32].prepaid_balance,
    ) && in_range(before + share(v, subscriber, token)(id))
}

/// Whether the running total stays an amount all the way.
pub open spec fn exposure_is_computable(
    v: VaultState,
    subscriber: Address,
    token: Address,
) -> bool {
    forall|id: int| 0 <= id < v.next_id ==> #[trigger] can_be_added(v, id, subscriber, token)
}

/// What stands against `subscriber` taking on `extra` in `token`. Without a credit limit, or
/// where nothing is taken on, nothing does.
pub open spec fn credit_objection(
    v: VaultState,
    subscriber: Address,
    token: Address,
    extra: int,
) -> Option<Error> {
    let limit = amount_at(v.credit_limits, of(subscriber, token));
    let exposure = total_exposure(v, subscriber, token);
    if limit == 0 || extra <= 0 {
        None
    } else if v.next_id > 5_000 {
        Some(Error::InvalidInput)
    } else if !exposure_is_computable(v, subscriber, token) || !in_range(exposure + extra) {
        Some(Error::Overflow)
    } else if exposure + extra > limit {
        Some(Error::CreditLimitExceeded)
    } else {
        None
    }
}

/// One for an active subscription of `subscriber` that is pinned to `plan`, zero for any other.
pub open spec fn counts(v: VaultState, subscriber: Address, plan: u32) -> spec_fn(int) -> int {
    |id: int|
        if v.subscription_plans.contains_key(id as u32) && v.subscription_plans[id as u32] == plan
            && v.subscriptions.contains_key(id as u32) && v.subscriptions[id as u32].subscriber
            == subscriber && v.subscriptions[id as u32].status == SubscriptionStatus::Active {
            1
        } else {
            0
        }
}

/// How many active subscriptions `subscriber` has on `plan`.
pub open spec fn active_subscriptions(v: VaultState, subscriber: Address, plan: u32) -> int {
    sum(counts(v, subscriber, plan), v.next_id as nat)
}

/// What stands against another active subscription of `subscriber` on `plan`. Without a limit
/// nothing does.
pub open spec fn crowding_objection(
    v: VaultState,
    subscriber: Address,
    plan: u32,
) -> Option<Error> {
    let limit = number_at(v.plan_limits, plan);
    if limit == 0 {
        None
    } else if v.next_id > 5_000 {
        Some(Error::InvalidInput)
    } else if active_subscriptions(v, subscriber, plan) >= limit {
        Some(Error::MaxConcurrentSubscriptionsReached)
    } else {
        None
    }
}

pub(crate) proof fn lemma_exposure(
    v: VaultState,
    bound: nat,
    subscriber: Address,
    token: Address,
)
    requires
        bound <= u32::MAX,
    ensures
        exposure_below(v.subscriptions, bound, subscriber, token) == sum(
            share(v, subscriber, token),
            bound,
        ),
    decreases bound,
{
    if bound > 0 {
        lemma_exposure(v, (bound - 1) as nat, subscriber, token);
    }
}

pub(crate) proof fn lemma_exposure_computable(
    v: VaultState,
    subscriber: Address,
    token: Address,
)
    ensures
        exposure_is_computable(v, subscriber, token) == (forall|id: u32|
            id < v.next_id ==> #[trigger] exposure_fits(v.subscriptions, id, subscriber, token)),
{
    assert forall|id: u32| #[trigger]
        exposure_fits(v.subscriptions, id, subscriber, token) == can_be_added(
            v,
            id as int,
            subscriber,
            token,
        ) by {
        lemma_exposure(v, id as nat, subscriber, token);
    }
    if exposure_is_computable(v, subscriber, token) {
        assert forall|id: u32| id < v.next_id implies #[trigger] exposure_fits(
            v.subscriptions,
            id,
            subscriber,
            token,
        ) by {
            assert(can_be_added(v, id as int, subscriber, token));
        }
    } else {
        let id = choose|id: int|
            0 <= id < v.next_id && !(#[trigger] can_be_added(v, id, subscriber, token));
        assert(!exposure_fits(v.subscriptions, id as u32, subscriber, token));
    }
}

pub(crate) proof fn lemma_credit(
    v: VaultState,
    subscriber: Address,
    token: Address,
    extra: i128,
)
    ensures
        credit_limit_refusal(v, subscriber, token, extra) == credit_objection(
            v,
            subscriber,
            token,
            extra as int,
        ),
{
    lemma_exposure(v, v.next_id as nat, subscriber, token);
    lemma_exposure_computable(v, subscriber, token);
    lemma_computable_exposure_is_an_amount(v, v.next_id as nat, subscriber, token);
}

pub(crate) proof fn lemma_computable_exposure_is_an_amount(
    v: VaultState,
    bound: nat,
    subscriber: Address,
    token: Address,
)
    requires
        bound <= v.next_id,
    ensures
        exposure_is_computable(v, subscriber, token) ==> in_range(
            sum(share(v, subscriber, token), bound),
        ),
    decreases bound,
{
    if bound > 0 && exposure_is_computable(v, subscriber, token) {
        lemma_computable_exposure_is_an_amount(v, (bound - 1) as nat, subscriber, token);
        assert(can_be_added(v, bound - 1, subscriber, token));
    }
}

pub(crate) proof fn lemma_active(v: VaultState, bound: nat, subscriber: Address, plan: u32)
    requires
        bound <= u32::MAX,
    ensures
        active_below(v.subscriptions, v.subscription_plans, bound, subscriber, plan) == sum(
            counts(v, subscriber, plan),
            bound,
        ),
    decreases bound,
{
    if bound > 0 {
        lemma_active(v, (bound - 1) as nat, subscriber, plan);
    }
}

pub(crate) proof fn lemma_crowding(v: VaultState, subscriber: Address, plan: u32)
    ensures
        concurrency_refusal(v, subscriber, plan) == crowding_objection(v, subscriber, plan),
{
    lemma_active(v, v.next_id as nat, subscriber, plan);
}

} // verus!
