//! What is promised of the limits on what one subscriber may take on.

use vstd::prelude::*;

use crate::limits::{
    compute_subscriber_exposure, count_active_subscriptions_for_plan,
    do_set_subscriber_credit_limit, enforce_credit_limit_for_delta,
    enforce_plan_concurrency_limit, get_plan_max_active_subs, get_subscriber_credit_limit,
    get_subscriber_exposure,
};
use crate::promises::{
    active_subscriptions, amount_at, counts, credit_objection, crowding_objection,
    exposure_is_computable, lemma_active, lemma_computable_exposure_is_an_amount, lemma_credit,
    lemma_crowding, lemma_exposure, lemma_exposure_computable, number_at, of, only_asked, sum,
    total_exposure,
};
use crate::types::{Address, Error};
use crate::vault::{Vault, VaultState};

verus! {

/// Whether `exposure` reports what `subscriber` is exposed to in `token`: the total, or that
/// there are too many subscriptions to walk over, or that the total is out of range.
pub open spec fn reports_exposure(
    v: VaultState,
    subscriber: Address,
    token: Address,
    exposure: Result<i128, Error>,
) -> bool {
    match exposure {
        Ok(total) => {
            &&& v.next_id <= 5_000
            &&& exposure_is_computable(v, subscriber, token)
            &&& total == total_exposure(v, subscriber, token)
        },
        Err(Error::InvalidInput) => v.next_id > 5_000,
        Err(Error::Overflow) => {
            &&& v.next_id <= 5_000
            &&& !exposure_is_computable(v, subscriber, token)
        },
        Err(_) => false,
    }
}

/// The exposure that is reported is the sum, over all subscriptions of the subscriber in the
/// token, of what is paid in and, for the active ones, of the next interval.
pub proof fn the_exposure_is_what_is_paid_in_and_due(
    vault: &Vault,
    subscriber: Address,
    token: Address,
    computed: Result<i128, Error>,
    asked: Result<i128, Error>,
)
    requires
        call_ensures(compute_subscriber_exposure, (vault, &subscriber, &token), computed),
        call_ensures(get_subscriber_exposure, (vault, subscriber, token), asked),
    ensures
        reports_exposure(vault@, subscriber, token, computed),
        reports_exposure(vault@, subscriber, token, asked),
{
    let v = vault@;
    lemma_exposure(v, v.next_id as nat, subscriber, token);
    lemma_exposure_computable(v, subscriber, token);
    lemma_computable_exposure_is_an_amount(v, v.next_id as nat, subscriber, token);
}

/// A subscriber may take more on exactly when nothing in the credit limit stands against it.
pub proof fn the_credit_limit_is_enforced(
    vault: &Vault,
    subscriber: &Address,
    token: &Address,
    extra: i128,
    result: Result<(), Error>,
)
    requires
        call_ensures(enforce_credit_limit_for_delta, (vault, subscriber, token, extra), result),
    ensures
        result is Ok <==> credit_objection(vault@, *subscriber, *token, extra as int) is None,
        result is Err ==> result == Err::<(), Error>(
            credit_objection(vault@, *subscriber, *token, extra as int)->0,
        ),
{
    lemma_credit(vault@, *subscriber, *token, extra);
}

proof fn lemma_counts_are_small(v: VaultState, bound: nat, subscriber: Address, plan: u32)
    ensures
        0 <= sum(counts(v, subscriber, plan), bound) <= bound,
    decreases bound,
{
    if bound > 0 {
        lemma_counts_are_small(v, (bound - 1) as nat, subscriber, plan);
    }
}

/// The count that is reported is the number of active subscriptions of the subscriber that are
/// pinned to the plan template.
pub proof fn the_count_is_that_of_active_subscriptions(
    vault: &Vault,
    subscriber: &Address,
    plan: u32,
    count: Result<u32, Error>,
)
    requires
        call_ensures(count_active_subscriptions_for_plan, (vault, subscriber, plan), count),
    ensures
        vault@.next_id > 5_000 ==> count == Err::<u32, Error>(Error::InvalidInput),
        vault@.next_id <= 5_000 ==> count is Ok && count->Ok_0 == active_subscriptions(
            vault@,
            *subscriber,
            plan,
        ),
{
    lemma_active(vault@, vault@.next_id as nat, *subscriber, plan);
    lemma_counts_are_small(vault@, vault@.next_id as nat, *subscriber, plan);
}

/// A subscriber may have another active subscription on a plan template exactly when nothing
/// in its limit stands against it.
pub proof fn the_plan_limit_is_enforced(
    vault: &Vault,
    subscriber: &Address,
    plan: u32,
    result: Result<(), Error>,
)
    requires
        call_ensures(enforce_plan_concurrency_limit, (vault, subscriber, plan), result),
    ensures
        result is Ok <==> crowding_objection(vault@, *subscriber, plan) is None,
        result is Err ==> result == Err::<(), Error>(
            crowding_objection(vault@, *subscriber, plan)->0,
        ),
{
    lemma_crowding(vault@, *subscriber, plan);
}

/// The limits that are stored are what is read; where none is stored, zero is.
pub proof fn stored_limits_are_read(
    vault: &Vault,
    plan: u32,
    max_active: u32,
    subscriber: Address,
    token: Address,
    credit: i128,
)
    requires
        call_ensures(get_plan_max_active_subs, (vault, plan), max_active),
        call_ensures(get_subscriber_credit_limit, (vault, subscriber, token), credit),
    ensures
        max_active == number_at(vault@.plan_limits, plan),
        credit == amount_at(vault@.credit_limits, of(subscriber, token)),
{
}

/// The admin sets a credit limit that is not negative. Nothing else is different then.
pub proof fn a_credit_limit_is_set_as_asked_for(
    vault: &mut Vault,
    admin: Address,
    subscriber: Address,
    token: Address,
    limit: i128,
    result: Result<(), Error>,
)
    requires
        call_ensures(
            do_set_subscriber_credit_limit,
            (vault, admin, subscriber, token, limit),
            result,
        ),
    ensures
        result == (if old(vault)@.admin is None {
            Err::<(), Error>(Error::NotInitialized)
        } else if old(vault)@.admin->0 != admin {
            Err(Error::Unauthorized)
        } else if limit < 0 {
            Err(Error::InvalidAmount)
        } else {
            Ok(())
        }),
        result is Err ==> final(vault)@ == only_asked(old(vault)@, admin),
        result is Ok ==> final(vault)@ == (VaultState {
            credit_limits: old(vault)@.credit_limits.insert(of(subscriber, token), limit),
            ..only_asked(old(vault)@, admin)
        }),
{
}

} // verus!
