//! Limits on what one subscriber may take on: the credit limit for a token and the
//! number of active subscriptions on a plan template.
//!
//! Checking a limit walks over all subscriptions, so both checks refuse to work on a
//! vault with more than [`MAX_WRITE_PATH_SCAN_DEPTH`] of them. Neither walk happens
//! where no limit is configured.

use vstd::prelude::*;

use crate::admin::{outcome, require_admin_auth};
use crate::safe_math::{fits, safe_add};
use crate::types::{AccountToken, Address, Error, Subscription, SubscriptionStatus};
use crate::vault::{lookup, value_or, Vault, VaultState};

verus! {

/// The largest number of subscriptions that a limit check walks over.
pub const MAX_WRITE_PATH_SCAN_DEPTH: u32 = 5_000;

/// What a subscription adds to the exposure of its subscriber: the prepaid balance and,
/// while it is active, the amount of the next interval.
pub open spec fn liability(sub: Subscription) -> int {
    if sub.status == SubscriptionStatus::Active {
        sub.prepaid_balance + sub.amount
    } else {
        sub.prepaid_balance as int
    }
}

impl VaultState {
    /// The credit limit of `subscriber` for `token`; zero stands for no limit.
    pub open spec fn credit_limit(self, subscriber: Address, token: Address) -> i128 {
        value_or(self.credit_limits, AccountToken { account: subscriber, token }, 0)
    }

    /// How many active subscriptions one subscriber may have on a plan template; zero stands
    /// for no limit.
    pub open spec fn plan_limit(self, plan_template_id: u32) -> u32 {
        value_or(self.plan_limits, plan_template_id, 0)
    }

    /// The exposure of `subscriber` in `token`, or why it cannot be computed.
    pub open spec fn exposure(self, subscriber: Address, token: Address) -> Result<i128, Error> {
        exposure_of(self.subscriptions, self.next_id, subscriber, token)
    }

    /// How many active subscriptions `subscriber` has on a plan template.
    pub open spec fn active_count(self, subscriber: Address, plan_template_id: u32) -> nat {
        active_below(
            self.subscriptions,
            self.subscription_plans,
            self.next_id as nat,
            subscriber,
            plan_template_id,
        )
    }
}

/// Whether the subscription with this ID belongs to `subscriber` and is settled in `token`.
pub open spec fn owed_by(
    subs: Map<u32, Subscription>,
    id: u32,
    subscriber: Address,
    token: Address,
) -> bool {
    &&& subs.contains_key(id)
    &&& subs[id].subscriber == subscriber
    &&& subs[id].token == token
}

/// The exposure of `subscriber` in `token` from the subscriptions with an ID below `bound`.
pub open spec fn exposure_below(
    subs: Map<u32, Subscription>,
    bound: nat,
    subscriber: Address,
    token: Address,
) -> int
    decreases bound,
{
    if bound == 0 {
        0
    } else {
        let id = (bound - 1) as u32;
        let rest = exposure_below(subs, (bound - 1) as nat, subscriber, token);
        if owed_by(subs, id, subscriber, token) {
            rest + liability(subs[id])
        } else {
            rest
        }
    }
}

/// Whether adding the subscription with this ID to the exposure from those before it, first
/// its balance and then its amount, stays within the range of amounts.
pub open spec fn exposure_fits(
    subs: Map<u32, Subscription>,
    id: u32,
    subscriber: Address,
    token: Address,
) -> bool {
    let before = exposure_below(subs, id as nat, subscriber, token);
    owed_by(subs, id, subscriber, token) ==> fits(before + subs[id].prepaid_balance) && fits(
        before + liability(subs[id]),
    )
}

/// The exposure of `subscriber` in `token` from the subscriptions with an ID below `next_id`,
/// or why it cannot be computed.
pub open spec fn exposure_of(
    subs: Map<u32, Subscription>,
    next_id: u32,
    subscriber: Address,
    token: Address,
) -> Result<i128, Error> {
    if next_id > MAX_WRITE_PATH_SCAN_DEPTH {
        Err(Error::InvalidInput)
    } else if forall|id: u32|
        id < next_id ==> #[trigger] exposure_fits(subs, id, subscriber, token) {
        Ok(exposure_below(subs, next_id as nat, subscriber, token) as i128)
    } else {
        Err(Error::Overflow)
    }
}

/// Whether the subscription with this ID is an active one of `subscriber` on a plan template.
pub open spec fn active_on(
    subs: Map<u32, Subscription>,
    plans: Map<u32, u32>,
    id: u32,
    subscriber: Address,
    plan_template_id: u32,
) -> bool {
    &&& lookup(plans, id) == Some(plan_template_id)
    &&& subs.contains_key(id)
    &&& subs[id].subscriber == subscriber
    &&& subs[id].status == SubscriptionStatus::Active
}

/// How many subscriptions with an ID below `bound` are active ones of `subscriber` on a plan
/// template.
pub open spec fn active_below(
    subs: Map<u32, Subscription>,
    plans: Map<u32, u32>,
    bound: nat,
    subscriber: Address,
    plan_template_id: u32,
) -> nat
    decreases bound,
{
    if bound == 0 {
        0
    } else {
        let rest = active_below(subs, plans, (bound - 1) as nat, subscriber, plan_template_id);
        if active_on(subs, plans, (bound - 1) as u32, subscriber, plan_template_id) {
            rest + 1
        } else {
            rest
        }
    }
}

/// How many active subscriptions one subscriber may have on a plan template; zero stands for
/// no limit.
fn get_plan_max_active(vault: &Vault, plan_template_id: u32) -> (max_active: u32)
    ensures
        max_active == vault@.plan_limit(plan_template_id),
{
    vault.plan_limits.copied(plan_template_id).unwrap_or(0)
}

/// How many active subscriptions `subscriber` has on a plan template.
pub fn count_active_subscriptions_for_plan(
    vault: &Vault,
    subscriber: &Address,
    plan_template_id: u32,
) -> (count: Result<u32, Error>)
    ensures
        count == (if vault@.next_id > MAX_WRITE_PATH_SCAN_DEPTH {
            Err::<u32, Error>(Error::InvalidInput)
        } else {
            Ok(vault@.active_count(*subscriber, plan_template_id) as u32)
        }),
        count matches Ok(n) ==> n == vault@.active_count(
            *subscriber,
            plan_template_id,
        ),
{
    let next_id: u32 = vault.next_id;
    if next_id > MAX_WRITE_PATH_SCAN_DEPTH {
        return Err(Error::InvalidInput);
    }
    let mut count: u32 = 0;
    let mut id: u32 = 0;
    while id < next_id
        invariant
            id <= next_id <= MAX_WRITE_PATH_SCAN_DEPTH,
            count <= id,
            next_id == vault@.next_id,
            count == active_below(
                vault@.subscriptions,
                vault@.subscription_plans,
                id as nat,
                *subscriber,
                plan_template_id,
            ),
        decreases next_id - id,
    {
        if vault.subscription_plans.copied(id) == Some(plan_template_id) {
            if let Some(sub) = vault.subscriptions.copied(id) {
                if sub.subscriber == *subscriber && sub.status == SubscriptionStatus::Active {
                    count = count + 1;
                }
            }
        }
        id = id + 1;
    }
    Ok(count)
}

/// Why `subscriber` may not have another active subscription on a plan template.
pub open spec fn concurrency_refusal(
    v: VaultState,
    subscriber: Address,
    plan_template_id: u32,
) -> Option<Error> {
    let max_active = v.plan_limit(plan_template_id);
    if max_active == 0 {
        None
    } else if v.next_id > MAX_WRITE_PATH_SCAN_DEPTH {
        Some(Error::InvalidInput)
    } else if v.active_count(subscriber, plan_template_id) >= max_active {
        Some(Error::MaxConcurrentSubscriptionsReached)
    } else {
        None
    }
}

/// Refuses another active subscription of `subscriber` on a plan template whose limit is
/// reached.
pub fn enforce_plan_concurrency_limit(
    vault: &Vault,
    subscriber: &Address,
    plan_template_id: u32,
) -> (result: Result<(), Error>)
    ensures
        result == outcome(concurrency_refusal(vault@, *subscriber, plan_template_id)),
{
    let max_active: u32 = get_plan_max_active(vault, plan_template_id);
    if max_active == 0 {
        return Ok(());
    }
    let current: u32 = match count_active_subscriptions_for_plan(
        vault,
        subscriber,
        plan_template_id,
    ) {
        Ok(current) => current,
        Err(e) => return Err(e),
    };
    if current >= max_active {
        return Err(Error::MaxConcurrentSubscriptionsReached);
    }
    Ok(())
}

/// The credit limit of `subscriber` for `token`; zero stands for no limit.
fn get_subscriber_credit_limit_internal(
    vault: &Vault,
    subscriber: &Address,
    token: &Address,
) -> (limit: i128)
    ensures
        limit == vault@.credit_limit(*subscriber, *token),
{
    vault.credit_limits.copied(AccountToken { account: *subscriber, token: *token }).unwrap_or(0)
}

/// The exposure of `subscriber` in `token`: the prepaid balances of all of its subscriptions
/// and the amounts of the active ones.
pub fn compute_subscriber_exposure(
    vault: &Vault,
    subscriber: &Address,
    token: &Address,
) -> (exposure: Result<i128, Error>)
    ensures
        exposure == vault@.exposure(*subscriber, *token),
        exposure matches Ok(total) ==> total == exposure_below(
            vault@.subscriptions,
            vault@.next_id as nat,
            *subscriber,
            *token,
        ),
{
    let next_id: u32 = vault.next_id;
    if next_id > MAX_WRITE_PATH_SCAN_DEPTH {
        return Err(Error::InvalidInput);
    }
    let mut exposure: i128 = 0;
    let mut id: u32 = 0;
    while id < next_id
        invariant
            id <= next_id,
            next_id == vault@.next_id,
            next_id <= MAX_WRITE_PATH_SCAN_DEPTH,
            exposure == exposure_below(vault@.subscriptions, id as nat, *subscriber, *token),
            forall|k: u32|
                k < id ==> #[trigger] exposure_fits(
                    vault@.subscriptions,
                    k,
                    *subscriber,
                    *token,
                ),
        decreases next_id - id,
    {
        if let Some(sub) = vault.subscriptions.copied(id) {
            if sub.subscriber == *subscriber && sub.token == *token {
                exposure = match safe_add(exposure, sub.prepaid_balance) {
                    Ok(sum) => sum,
                    Err(e) => {
                        assert(!exposure_fits(vault@.subscriptions, id, *subscriber, *token));
                        return Err(e);
                    },
                };
                if sub.status == SubscriptionStatus::Active {
                    exposure = match safe_add(exposure, sub.amount) {
                        Ok(sum) => sum,
                        Err(e) => {
                            assert(!exposure_fits(vault@.subscriptions, id, *subscriber, *token));
                            return Err(e);
                        },
                    };
                }
            }
        }
        assert(exposure_fits(vault@.subscriptions, id, *subscriber, *token));
        id = id + 1;
    }
    Ok(exposure)
}

/// Why the exposure of `subscriber` in `token` may not grow by `additional_liability`.
pub open spec fn credit_limit_refusal(
    v: VaultState,
    subscriber: Address,
    token: Address,
    additional_liability: i128,
) -> Option<Error> {
    let limit = v.credit_limit(subscriber, token);
    if additional_liability <= 0 || limit == 0 {
        None
    } else {
        match v.exposure(subscriber, token) {
            Err(e) => Some(e),
            Ok(current) => if !fits(current + additional_liability) {
                Some(Error::Overflow)
            } else if current + additional_liability > limit {
                Some(Error::CreditLimitExceeded)
            } else {
                None
            },
        }
    }
}

/// Refuses a growth of the exposure of `subscriber` in `token` beyond the credit limit.
pub fn enforce_credit_limit_for_delta(
    vault: &Vault,
    subscriber: &Address,
    token: &Address,
    additional_liability: i128,
) -> (result: Result<(), Error>)
    ensures
        result == outcome(
            credit_limit_refusal(vault@, *subscriber, *token, additional_liability),
        ),
{
    // What adds nothing does not increase the exposure.
    if additional_liability <= 0 {
        return Ok(());
    }
    let limit: i128 = get_subscriber_credit_limit_internal(vault, subscriber, token);
    if limit == 0 {
        return Ok(());
    }
    let current: i128 = match compute_subscriber_exposure(vault, subscriber, token) {
        Ok(current) => current,
        Err(e) => return Err(e),
    };
    let new_exposure: i128 = match safe_add(current, additional_liability) {
        Ok(new_exposure) => new_exposure,
        Err(e) => return Err(e),
    };
    if new_exposure > limit {
        return Err(Error::CreditLimitExceeded);
    }
    Ok(())
}

/// The configured number of active subscriptions of one subscriber on a plan template; zero
/// when no limit has been set.
pub fn get_plan_max_active_subs(vault: &Vault, plan_template_id: u32) -> (max_active: u32)
    ensures
        max_active == vault@.plan_limit(plan_template_id),
{
    get_plan_max_active(vault, plan_template_id)
}

/// Why [`do_set_subscriber_credit_limit`] is refused.
pub open spec fn set_credit_limit_refusal(
    v: VaultState,
    admin: Address,
    limit: i128,
) -> Option<Error> {
    match v.admin_refusal(admin) {
        Some(e) => Some(e),
        None => if limit < 0 {
            Some(Error::InvalidAmount)
        } else {
            None
        },
    }
}

/// The vault after [`do_set_subscriber_credit_limit`].
pub open spec fn set_credit_limit_after(
    v: VaultState,
    admin: Address,
    subscriber: Address,
    token: Address,
    limit: i128,
) -> VaultState {
    if set_credit_limit_refusal(v, admin, limit) is Some {
        v.demand(admin)
    } else {
        VaultState {
            credit_limits: v.credit_limits.insert(
                AccountToken { account: subscriber, token },
                limit,
            ),
            ..v.demand(admin)
        }
    }
}

/// Sets the credit limit of `subscriber` for `token`. Zero lifts the limit.
pub fn do_set_subscriber_credit_limit(
    vault: &mut Vault,
    admin: Address,
    subscriber: Address,
    token: Address,
    limit: i128,
) -> (result: Result<(), Error>)
    ensures
        result == outcome(set_credit_limit_refusal(old(vault)@, admin, limit)),
        final(vault)@ == set_credit_limit_after(old(vault)@, admin, subscriber, token, limit),
{
    match require_admin_auth(vault, &admin) {
        Ok(()) => {},
        Err(e) => return Err(e),
    }
    if limit < 0 {
        return Err(Error::InvalidAmount);
    }
    vault.credit_limits.set(AccountToken { account: subscriber, token }, limit);
    Ok(())
}

/// The credit limit of `subscriber` for `token`; zero stands for no limit.
pub fn get_subscriber_credit_limit(
    vault: &Vault,
    subscriber: Address,
    token: Address,
) -> (limit: i128)
    ensures
        limit == vault@.credit_limit(subscriber, token),
{
    get_subscriber_credit_limit_internal(vault, &subscriber, &token)
}

/// The exposure of `subscriber` in `token`.
pub fn get_subscriber_exposure(
    vault: &Vault,
    subscriber: Address,
    token: Address,
) -> (exposure: Result<i128, Error>)
    ensures
        exposure == vault@.exposure(subscriber, token),
{
    compute_subscriber_exposure(vault, &subscriber, &token)
}

} // verus!
