//! What a batch of charges publishes.

use vstd::prelude::*;

use crate::admin::{batch_leads, batch_report, batch_run, charges};
use crate::events::Event;
use crate::types::{BatchChargeResult, ChargeExecutionResult, Error};
use crate::vault::{Vault, VaultState};

verus! {

/// Whether `now` holds one event more than `before`: that subscription `id` has been charged.
pub open spec fn announces_charge(before: Seq<Event>, now: Seq<Event>, id: u32) -> bool {
    &&& now.len() == before.len() + 1
    &&& before.is_prefix_of(now)
    &&& now.last() is SubscriptionCharged
    &&& now.last()->SubscriptionCharged_0.subscription_id == id
}

/// Whether charging publishes one event for a subscription that is charged, and none for one
/// that is not.
pub open spec fn announces_what_it_charges<
    F: Fn(Vault, u32, u64) -> (Vault, Result<ChargeExecutionResult, Error>),
>(charge_one: F, now: u64) -> bool {
    forall|
        before: Vault,
        id: u32,
        after: Vault,
        charged: Result<ChargeExecutionResult, Error>,
    | #[trigger]
        call_ensures(charge_one, (before, id, now), (after, charged)) ==> if charged == Ok::<
            ChargeExecutionResult,
            Error,
        >(ChargeExecutionResult::Charged) {
            announces_charge(before@.events(), after@.events(), id)
        } else {
            after@.events() == before@.events()
        }
}

/// The subscriptions that a batch reports as charged, in order.
pub open spec fn charged_ids(ids: Seq<u32>, reports: Seq<BatchChargeResult>) -> Seq<u32>
    decreases ids.len(),
{
    if ids.len() == 0 {
        Seq::empty()
    } else {
        let rest = charged_ids(ids.drop_last(), reports.drop_last());
        if reports.last().success {
            rest.push(ids.last())
        } else {
            rest
        }
    }
}

/// Whether the events of `now` are those of `before` and then one for each of `ids`, in order:
/// that the subscription has been charged.
pub open spec fn announces_charges(before: Seq<Event>, now: Seq<Event>, ids: Seq<u32>) -> bool {
    &&& before.is_prefix_of(now)
    &&& now.len() == before.len() + ids.len()
    &&& forall|i: int|
        0 <= i < ids.len() ==> (#[trigger] now[before.len() + i]) is SubscriptionCharged
            && now[before.len() + i]->SubscriptionCharged_0.subscription_id == ids[i]
}

proof fn lemma_announces_one_more(
    before: Seq<Event>,
    middle: Seq<Event>,
    now: Seq<Event>,
    ids: Seq<u32>,
    id: u32,
)
    requires
        announces_charges(before, middle, ids),
        announces_charge(middle, now, id),
    ensures
        announces_charges(before, now, ids.push(id)),
{
    assert forall|i: int| 0 <= i < ids.push(id).len() implies (#[trigger] now[before.len()
        + i]) is SubscriptionCharged && now[before.len()
        + i]->SubscriptionCharged_0.subscription_id == ids.push(id)[i] by {
        if i < ids.len() {
            assert(now[before.len() + i] == middle[before.len() + i]);
        }
    }
    assert forall|i: int| 0 <= i < before.len() implies before[i] == now[i] by {
        assert(before[i] == middle[i]);
        assert(middle[i] == now[i]);
    }
}

proof fn lemma_run_publishes<
    F: Fn(Vault, u32, u64) -> (Vault, Result<ChargeExecutionResult, Error>),
>(
    charge_one: F,
    vaults: Seq<Vault>,
    ids: Seq<u32>,
    now: u64,
    reports: Seq<BatchChargeResult>,
)
    requires
        announces_what_it_charges(charge_one, now),
        batch_run(charge_one, vaults, ids, now, reports),
    ensures
        announces_charges(
            vaults.first()@.events(),
            vaults.last()@.events(),
            charged_ids(ids, reports),
        ),
    decreases ids.len(),
{
    if ids.len() > 0 {
        let last = ids.len() - 1;
        let start = vaults.first()@.events();
        let shorter = vaults.drop_last();
        let earlier = reports.drop_last();
        assert forall|i: int| 0 <= i < ids.drop_last().len() implies charges(
            charge_one,
            shorter[i],
            ids.drop_last()[i],
            now,
            shorter[i + 1],
            #[trigger] earlier[i],
        ) by {
            assert(earlier[i] == reports[i]);
        }
        lemma_run_publishes(charge_one, shorter, ids.drop_last(), now, earlier);
        let before = shorter.last();
        let after = vaults.last();
        assert(charges(charge_one, vaults[last], ids[last], now, vaults[last + 1], reports[last]));
        let charged = choose|charged: Result<ChargeExecutionResult, Error>|
            #[trigger] call_ensures(charge_one, (before, ids[last], now), (after, charged))
                && reports[last] == batch_report(charged);
        let rest = charged_ids(ids.drop_last(), earlier);
        if reports.last().success {
            lemma_announces_one_more(
                start,
                before@.events(),
                after@.events(),
                rest,
                ids[last],
            );
        }
    }
}

/// A batch publishes one event for every charge that it reports as a success, in the order of
/// the batch, and nothing for a charge that failed, as long as charging one subscription does
/// so. An empty batch publishes nothing.
pub proof fn a_batch_publishes_its_successes_in_order<
    F: Fn(Vault, u32, u64) -> (Vault, Result<ChargeExecutionResult, Error>),
>(
    charge_one: F,
    start: VaultState,
    ids: Seq<u32>,
    now: u64,
    reports: Seq<BatchChargeResult>,
    end: Vault,
)
    requires
        announces_what_it_charges(charge_one, now),
        batch_leads(charge_one, start, ids, now, reports, end),
    ensures
        announces_charges(start.events(), end@.events(), charged_ids(ids, reports)),
{
    let vaults = choose|vaults: Seq<Vault>|
        {
            &&& #[trigger] batch_run(charge_one, vaults, ids, now, reports)
            &&& vaults.first()@ == start
            &&& vaults.last() == end
        };
    lemma_run_publishes(charge_one, vaults, ids, now, reports);
}

} // verus!
