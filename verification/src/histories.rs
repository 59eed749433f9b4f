//! What holds of a vault after any history of operations.

use vstd::prelude::*;

use crate::calls::{adds_plan, after, at_time, opens_subscription, refusal, subscription_of, Call};
use crate::conservation::{
    finite, net_inflow, new_vault_is_solvent, solvent, success_keeps_the_vault_solvent,
};
use crate::integrity::{
    books_in_order, every_call_keeps_books_in_order, every_call_keeps_ids_in_order,
    every_call_keeps_indexes_agree, every_call_keeps_statements_in_order,
    every_call_keeps_tokens_agree, ids_in_order, indexes_agree, new_vault_is_in_order,
    statements_in_order, the_next_operation_starts_in_order, tokens_agree,
};
use crate::journeys::recoveries_are_remembered;
use crate::laws::calls_change_only_their_part;
use crate::reconciliation::{
    explained, new_vault_is_reconciled, reconciled, success_keeps_reconciled,
};
use crate::types::{Address, Error};
use crate::vault::{empty_vault, VaultState};

verus! {

/// A call at a time.
pub struct Step {
    pub now: u64,
    pub call: Call,
}

/// Whether a step succeeds.
pub open spec fn succeeds(v: VaultState, step: Step) -> bool {
    refusal(at_time(v, step.now), step.call) is None
}

/// What a step leaves: the vault after the call, or the vault as it was where the call is
/// refused.
pub open spec fn conclude(v: VaultState, step: Step) -> VaultState {
    if succeeds(v, step) {
        after(at_time(v, step.now), step.call)
    } else {
        v
    }
}

/// A step that is refused leaves nothing: no change, no transfer and no event.
pub proof fn a_refused_step_leaves_nothing(v: VaultState, step: Step)
    requires
        !succeeds(v, step),
    ensures
        conclude(v, step) == v,
        conclude(v, step).events() == v.events(),
{
}

/// The vault at `contract` after a history of steps.
pub open spec fn history(contract: Address, steps: Seq<Step>) -> VaultState
    decreases steps.len(),
{
    if steps.len() == 0 {
        empty_vault(contract, 0)
    } else {
        conclude(history(contract, steps.drop_last()), steps.last())
    }
}

/// No recovery that has been executed is ever forgotten.
pub proof fn histories_remember_recoveries(contract: Address, steps: Seq<Step>, i: int)
    requires
        0 <= i <= steps.len(),
    ensures
        history(contract, steps.take(i)).recoveries.subset_of(history(contract, steps).recoveries),
    decreases steps.len(),
{
    if i == steps.len() {
        assert(steps.take(i) =~= steps);
    } else {
        let earlier = steps.drop_last();
        histories_remember_recoveries(contract, earlier, i);
        assert(earlier.take(i) =~= steps.take(i));
        let v = history(contract, earlier);
        let w = at_time(v, steps.last().now);
        assert forall|id: Seq<char>| v.recoveries.contains(id) implies history(
            contract,
            steps,
        ).recoveries.contains(id) by {
            recoveries_are_remembered(w, steps.last().call, id);
        }
    }
}

/// A recovery is executed once: after the step that executed it, and whatever happens in
/// between, no step with the same ID succeeds. An admin who asks for a positive amount is told that
/// it is a replay.
pub proof fn no_history_repeats_a_recovery(contract: Address, steps: Seq<Step>, i: int, j: int)
    requires
        0 <= i < j < steps.len(),
        succeeds(history(contract, steps.take(i)), steps[i]),
        steps[i].call is Recover,
        steps[j].call is Recover,
        steps[j].call->recovery_id == steps[i].call->recovery_id,
    ensures
        !succeeds(history(contract, steps.take(j)), steps[j]),
        ({
            let v = history(contract, steps.take(j));
            let again = steps[j].call;
            v.admin == Some(again->Recover_admin) && again->Recover_amount > 0 ==> refusal(
                at_time(v, steps[j].now),
                again,
            ) == Some(Error::Replay)
        }),
{
    let id = steps[i].call->recovery_id;
    let before = history(contract, steps.take(i));
    assert(steps.take(i + 1).drop_last() =~= steps.take(i));
    assert(history(contract, steps.take(i + 1)).recoveries.contains(id)) by {
        assert(history(contract, steps.take(i + 1)) == conclude(before, steps[i]));
        reveal(refusal);
        reveal(after);
    }
    histories_remember_recoveries(contract, steps.take(j), i + 1);
    assert(steps.take(j).take(i + 1) =~= steps.take(i + 1));
    recoveries_are_remembered(
        at_time(history(contract, steps.take(j)), steps[j].now),
        steps[j].call,
        id,
    );
}

/// What a step brings into the vault of `token`, less what it pays out.
pub open spec fn received(v: VaultState, step: Step, token: Address) -> int {
    if succeeds(v, step) {
        net_inflow(conclude(v, step).actions, v.contract, token)
    } else {
        0
    }
}

/// What the vault holds of `token` after a history of steps.
pub open spec fn holdings(contract: Address, steps: Seq<Step>, token: Address) -> int
    decreases steps.len(),
{
    if steps.len() == 0 {
        0
    } else {
        holdings(contract, steps.drop_last(), token) + received(
            history(contract, steps.drop_last()),
            steps.last(),
            token,
        )
    }
}

/// Whether the vault itself is no depositor, and every recovery is told what the vault holds.
pub open spec fn faithful(contract: Address, steps: Seq<Step>) -> bool
    decreases steps.len(),
{
    if steps.len() == 0 {
        true
    } else {
        &&& faithful(contract, steps.drop_last())
        &&& match steps.last().call {
            Call::Deposit { subscriber, .. } => subscriber != contract,
            Call::Recover { token, contract_balance, .. } => contract_balance == holdings(
                contract,
                steps.drop_last(),
                token,
            ),
            _ => true,
        }
    }
}

/// All that the integrity of a vault asks for.
pub open spec fn in_order(v: VaultState) -> bool {
    &&& tokens_agree(v)
    &&& books_in_order(v)
    &&& ids_in_order(v)
    &&& indexes_agree(v)
    &&& statements_in_order(v)
}

proof fn lemma_counters(v: VaultState, call: Call)
    requires
        v.next_id < u32::MAX,
        v.next_plan_id < u32::MAX,
    ensures
        after(v, call).next_id <= v.next_id + 1,
        after(v, call).next_plan_id <= v.next_plan_id + 1,
{
    calls_change_only_their_part(v, call);
    if opens_subscription(call) || adds_plan(call) {
        reveal(after);
    }
}

/// Whatever happens to a vault, it stays in order, as long as the IDs do not run out.
pub proof fn every_history_is_in_order(contract: Address, steps: Seq<Step>)
    requires
        steps.len() < u32::MAX,
    ensures
        in_order(history(contract, steps)),
        history(contract, steps).contract == contract,
        history(contract, steps).next_id <= steps.len(),
        history(contract, steps).next_plan_id <= steps.len(),
    decreases steps.len(),
{
    if steps.len() == 0 {
        new_vault_is_in_order(contract, 0);
    } else {
        every_history_is_in_order(contract, steps.drop_last());
        let v = history(contract, steps.drop_last());
        let step = steps.last();
        let w = at_time(v, step.now);
        the_next_operation_starts_in_order(v, step.now);
        if succeeds(v, step) {
            every_call_keeps_tokens_agree(w, step.call);
            every_call_keeps_books_in_order(w, step.call);
            every_call_keeps_ids_in_order(w, step.call);
            every_call_keeps_indexes_agree(w, step.call);
            every_call_keeps_statements_in_order(w, step.call);
            calls_change_only_their_part(w, step.call);
            lemma_counters(w, step.call);
        }
    }
}

proof fn lemma_at_time_reconciled(v: VaultState, now: u64)
    requires
        reconciled(v),
    ensures
        reconciled(at_time(v, now)),
{
    let w = at_time(v, now);
    assert forall|m: Address, t: Address| #[trigger] explained(w, m, t) by {
        assert(explained(v, m, t));
    }
    assert forall|m: Address| (#[trigger] w.earned_tokens(m)).no_duplicates() by {
        assert(v.earned_tokens(m).no_duplicates());
    }
}

/// Whatever happens to a vault, the earnings of every merchant explain its balance.
pub proof fn every_history_is_reconciled(contract: Address, steps: Seq<Step>)
    ensures
        reconciled(history(contract, steps)),
    decreases steps.len(),
{
    if steps.len() == 0 {
        new_vault_is_reconciled(contract, 0);
    } else {
        every_history_is_reconciled(contract, steps.drop_last());
        let v = history(contract, steps.drop_last());
        let step = steps.last();
        lemma_at_time_reconciled(v, step.now);
        if succeeds(v, step) {
            success_keeps_reconciled(at_time(v, step.now), step.call);
        }
    }
}

proof fn lemma_stays_finite(v: VaultState, call: Call)
    requires
        finite(v),
    ensures
        finite(after(v, call)),
{
    let now = after(v, call);
    calls_change_only_their_part(v, call);
    let added = if opens_subscription(call) {
        v.next_id
    } else {
        subscription_of(call)->0
    };
    let keys = v.subscriptions.dom().insert(added);
    assert forall|id: u32| now.subscriptions.dom().contains(id) implies keys.contains(id) by {
        assert(id != added ==> now.subscription(id) == v.subscription(id));
    }
    vstd::set_lib::lemma_len_subset(now.subscriptions.dom(), keys);
    if call is WithdrawMerchant || call is RefundByMerchant || call is ChargeOneOff {
        reveal(after);
    }
}

/// Whatever happens to a vault, it can pay all that it owes, and accounts for all of it.
pub proof fn every_history_is_solvent(contract: Address, steps: Seq<Step>, token: Address)
    requires
        steps.len() < u32::MAX,
        faithful(contract, steps),
    ensures
        finite(history(contract, steps)),
        solvent(history(contract, steps), token, holdings(contract, steps, token)),
    decreases steps.len(),
{
    if steps.len() == 0 {
        new_vault_is_solvent(contract, 0, token, 0);
    } else {
        let earlier = steps.drop_last();
        every_history_is_solvent(contract, earlier, token);
        every_history_is_in_order(contract, earlier);
        let v = history(contract, earlier);
        let step = steps.last();
        let w = at_time(v, step.now);
        let held = holdings(contract, earlier, token);
        if succeeds(v, step) {
            assert(!w.subscriptions.contains_key(w.next_id));
            success_keeps_the_vault_solvent(w, step.call, token, held);
            lemma_stays_finite(w, step.call);
        }
    }
}

} // verus!
