//! What holds of a vault at all times: each property holds of a new vault, and every
//! operation keeps it, whether it succeeds or not.

use vstd::prelude::*;

use crate::admin::{listed, other_than, without, MAX_FEE_BPS};
use crate::calls::{adds_plan, after, at_time, opens_subscription, subscription_of, Call};
use crate::laws::calls_change_only_their_part;
use crate::plans::valid_cap;
use crate::types::{AcceptedToken, AccountToken, Address, StatementId, Subscription};
use crate::vault::{append_to, empty_vault, value_or, VaultState};

verus! {

/// The accepted tokens are listed once each, the list agrees with the decimals on record, and
/// the default token is among them. Only a vault that has been set up has any.
pub open spec fn tokens_agree(v: VaultState) -> bool {
    &&& v.accepted_tokens.no_duplicates()
    &&& forall|t: Address| v.accepted_tokens.contains(t) <==> #[trigger] v.accepts(t)
    &&& v.token is Some <==> v.admin is Some
    &&& match v.token {
        Some(token) => v.accepts(token),
        None => v.accepted_tokens.len() == 0,
    }
}

proof fn lemma_without(tokens: Seq<Address>, token: Address)
    requires
        tokens.no_duplicates(),
    ensures
        without(tokens, token).no_duplicates(),
        forall|t: Address|
            without(tokens, token).contains(t) <==> tokens.contains(t) && t != token,
    decreases tokens.len(),
{
    broadcast use vstd::seq_lib::group_filter_ensures;

    let kept = other_than(token);
    let list = without(tokens, token);
    assert forall|t: Address| list.contains(t) implies tokens.contains(t) && t != token by {
        tokens.lemma_filter_contains_rev(kept, t);
    }
    reveal(Seq::filter);
    if tokens.len() > 0 {
        let rest = tokens.drop_last();
        let last = tokens.last();
        lemma_without(rest, token);
        if last != token {
            assert(!rest.contains(last));
            assert(list =~= without(rest, token).push(last));
        } else {
            assert(list =~= without(rest, token));
        }
    }
}

/// Every call keeps the list of accepted tokens in order.
pub proof fn every_call_keeps_tokens_agree(v: VaultState, call: Call)
    requires
        tokens_agree(v),
    ensures
        tokens_agree(after(v, call)),
{
    if call is Init || call is AddToken || call is RemoveToken || call is RotateAdmin {
        lemma_token_calls_keep_tokens_agree(v, call);
    } else {
        calls_change_only_their_part(v, call);
        assert forall|t: Address|
            after(v, call).accepted_tokens.contains(t) <==> #[trigger] after(v, call).accepts(
                t,
            ) by {
            assert(v.accepted_tokens.contains(t) <==> v.accepts(t));
        }
    }
}

proof fn lemma_token_calls_keep_tokens_agree(v: VaultState, call: Call)
    requires
        call is Init || call is AddToken || call is RemoveToken || call is RotateAdmin,
        tokens_agree(v),
    ensures
        tokens_agree(after(v, call)),
{
    reveal(after);
    let now = after(v, call);
    match call {
        Call::Init { token, .. } => {
            assert forall|t: Address| now.accepted_tokens.contains(t) <==> #[trigger] now.accepts(
                t,
            ) by {
                assert(v.accepted_tokens.contains(t) <==> v.accepts(t));
                assert(seq![token][0] == token);
            }
        },
        Call::AddToken { token, .. } => {
            let list = v.accepted_tokens.push(token);
            assert(list.last() == token);
            assert forall|t: Address| now.accepted_tokens.contains(t) <==> #[trigger] now.accepts(
                t,
            ) by {
                assert(v.accepted_tokens.contains(t) <==> v.accepts(t));
                if v.accepted_tokens.contains(t) {
                    let i = choose|i: int|
                        0 <= i < v.accepted_tokens.len() && v.accepted_tokens[i] == t;
                    assert(list[i] == t);
                }
            }
            assert(v.accepted_tokens.contains(token) <==> v.accepts(token));
        },
        Call::RemoveToken { token, .. } => {
            lemma_without(v.accepted_tokens, token);
            assert forall|t: Address| now.accepted_tokens.contains(t) <==> #[trigger] now.accepts(
                t,
            ) by {
                assert(v.accepted_tokens.contains(t) <==> v.accepts(t));
            }
            assert(v.token is Some ==> v.accepts(v.token->0));
        },
        _ => {
            assert forall|t: Address| now.accepts(t) == v.accepts(t) by {}
        },
    }
}

/// The list of accepted tokens with their decimals is the list of accepted tokens: none is left
/// out.
pub proof fn every_accepted_token_is_listed(v: VaultState)
    requires
        tokens_agree(v),
    ensures
        v.accepted_tokens.filter_map(|t: Address| listed(v, t)) == v.accepted_tokens.map_values(
            |t: Address| AcceptedToken { token: t, decimals: v.token_decimals[t] },
        ),
{
    assert forall|i: int| 0 <= i < v.accepted_tokens.len() implies v.accepts(
        #[trigger] v.accepted_tokens[i],
    ) by {
        assert(v.accepted_tokens.contains(v.accepted_tokens[i]));
    }
    lemma_all_listed(v, v.accepted_tokens);
}

proof fn lemma_all_listed(v: VaultState, tokens: Seq<Address>)
    requires
        forall|i: int| 0 <= i < tokens.len() ==> v.accepts(#[trigger] tokens[i]),
    ensures
        tokens.filter_map(|t: Address| listed(v, t)) == tokens.map_values(
            |t: Address| AcceptedToken { token: t, decimals: v.token_decimals[t] },
        ),
    decreases tokens.len(),
{
    reveal(Seq::filter_map);
    let entry = |t: Address| AcceptedToken { token: t, decimals: v.token_decimals[t] };
    if tokens.len() > 0 {
        let rest = tokens.drop_last();
        lemma_all_listed(v, rest);
        assert(v.accepts(tokens[tokens.len() - 1]));
        assert(tokens.map_values(entry) =~= rest.map_values(entry) + seq![entry(tokens.last())]);
    }
    assert(tokens.filter_map(|t: Address| listed(v, t)) =~= tokens.map_values(entry));
}

/// Whether the books of a subscription are in order: nothing in it is negative, and no more
/// has been charged than the lifetime cap allows.
pub open spec fn sub_in_order(sub: Subscription) -> bool {
    &&& sub.prepaid_balance >= 0
    &&& sub.lifetime_charged >= 0
    &&& sub.lifetime_cap is Some ==> sub.lifetime_charged <= sub.lifetime_cap->0
}

/// The books are in order: no balance is negative, no lifetime cap is exceeded, every cap of a
/// plan template is positive, no limit is negative, and the protocol fee is at most the whole
/// amount.
pub open spec fn books_in_order(v: VaultState) -> bool {
    &&& forall|id: u32| #[trigger]
        v.subscriptions.contains_key(id) ==> sub_in_order(v.subscriptions[id])
    &&& forall|id: u32| #[trigger]
        v.plans.contains_key(id) ==> valid_cap(v.plans[id].lifetime_cap)
    &&& forall|key: AccountToken| #[trigger]
        v.merchant_balances.contains_key(key) ==> v.merchant_balances[key] >= 0
    &&& forall|key: AccountToken| #[trigger]
        v.credit_limits.contains_key(key) ==> v.credit_limits[key] >= 0
    &&& v.fee_bps is Some ==> v.fee_bps->0 <= MAX_FEE_BPS
}

proof fn lemma_named_subscription_stays_in_order(v: VaultState, call: Call)
    requires
        books_in_order(v),
        subscription_of(call) is Some,
    ensures
        ({
            let id = subscription_of(call)->0;
            let now = after(v, call);
            &&& now.subscriptions.contains_key(id) <==> v.subscriptions.contains_key(id)
            &&& v.subscriptions.contains_key(id) ==> sub_in_order(now.subscriptions[id])
        }),
{
    reveal(after);
    let id = subscription_of(call)->0;
    if v.subscriptions.contains_key(id) {
        assert(sub_in_order(v.subscriptions[id]));
    }
}

proof fn lemma_opened_subscription_is_in_order(v: VaultState, call: Call)
    requires
        books_in_order(v),
        opens_subscription(call),
    ensures
        ({
            let id = v.next_id;
            let now = after(v, call);
            ||| now.subscriptions == v.subscriptions
            ||| now.subscriptions.contains_key(id) && sub_in_order(now.subscriptions[id])
        }),
{
    reveal(after);
    if let Call::Subscribe { plan_template_id, .. } = call {
        if v.plans.contains_key(plan_template_id) {
            assert(valid_cap(v.plans[plan_template_id].lifetime_cap));
        }
    }
}

proof fn lemma_plans_stay_in_order(v: VaultState, call: Call, id: u32)
    requires
        books_in_order(v),
        adds_plan(call),
        after(v, call).plans.contains_key(id),
    ensures
        valid_cap(after(v, call).plans[id].lifetime_cap),
{
    reveal(after);
    if v.plans.contains_key(id) {
        assert(valid_cap(v.plans[id].lifetime_cap));
    }
}

proof fn lemma_merchant_balances_stay_in_order(v: VaultState, call: Call, key: AccountToken)
    requires
        books_in_order(v),
        call is WithdrawMerchant || call is RefundByMerchant || call is ChargeOneOff,
        after(v, call).merchant_balances.contains_key(key),
    ensures
        after(v, call).merchant_balances[key] >= 0,
{
    reveal(after);
    if v.merchant_balances.contains_key(key) {
        assert(v.merchant_balances[key] >= 0);
    }
}

/// Every call keeps the books in order.
pub proof fn every_call_keeps_books_in_order(v: VaultState, call: Call)
    requires
        books_in_order(v),
    ensures
        books_in_order(after(v, call)),
{
    let now = after(v, call);
    calls_change_only_their_part(v, call);
    assert forall|id: u32| #[trigger] now.subscriptions.contains_key(id) implies sub_in_order(
        now.subscriptions[id],
    ) by {
        if subscription_of(call) == Some(id) {
            lemma_named_subscription_stays_in_order(v, call);
        } else if opens_subscription(call) && id == v.next_id {
            lemma_opened_subscription_is_in_order(v, call);
            assert(v.subscriptions.contains_key(id) ==> sub_in_order(v.subscriptions[id]));
        } else {
            assert(now.subscription(id) == v.subscription(id));
            assert(v.subscriptions.contains_key(id));
        }
    }
    assert forall|id: u32| #[trigger] now.plans.contains_key(id) implies valid_cap(
        now.plans[id].lifetime_cap,
    ) by {
        if adds_plan(call) {
            lemma_plans_stay_in_order(v, call, id);
        }
    }
    assert forall|key: AccountToken| #[trigger]
        now.merchant_balances.contains_key(key) implies now.merchant_balances[key] >= 0 by {
        if call is WithdrawMerchant || call is RefundByMerchant || call is ChargeOneOff {
            lemma_merchant_balances_stay_in_order(v, call, key);
        }
    }
    assert forall|key: AccountToken| #[trigger]
        now.credit_limits.contains_key(key) implies now.credit_limits[key] >= 0 by {
        if call is SetCreditLimit {
            reveal(after);
            assert(v.credit_limits.contains_key(key) ==> v.credit_limits[key] >= 0);
        }
    }
    assert(now.fee_bps is Some ==> now.fee_bps->0 <= MAX_FEE_BPS) by {
        if call is SetProtocolFee {
            reveal(after);
        }
    }
}

/// IDs are given out in order: every subscription and every plan template has an ID below the
/// next one, and every subscription that is pinned to a plan template exists, as does the
/// template.
pub open spec fn ids_in_order(v: VaultState) -> bool {
    &&& forall|id: u32| #[trigger] v.subscriptions.contains_key(id) ==> id < v.next_id
    &&& forall|id: u32| #[trigger] v.plans.contains_key(id) ==> id < v.next_plan_id
    &&& forall|id: u32| #[trigger]
        v.subscription_plans.contains_key(id) ==> v.subscriptions.contains_key(id)
            && v.plans.contains_key(v.subscription_plans[id])
}

proof fn lemma_no_subscription_disappears(v: VaultState, call: Call, id: u32)
    requires
        v.subscriptions.contains_key(id),
    ensures
        after(v, call).subscriptions.contains_key(id),
{
    calls_change_only_their_part(v, call);
    if subscription_of(call) == Some(id) || opens_subscription(call) {
        reveal(after);
    } else {
        assert(after(v, call).subscription(id) == v.subscription(id));
    }
}

proof fn lemma_no_plan_disappears(v: VaultState, call: Call, id: u32)
    requires
        v.plans.contains_key(id),
    ensures
        after(v, call).plans.contains_key(id),
{
    calls_change_only_their_part(v, call);
    if adds_plan(call) {
        reveal(after);
    }
}

/// Every call keeps the IDs in order, as long as they do not run out.
pub proof fn every_call_keeps_ids_in_order(v: VaultState, call: Call)
    requires
        ids_in_order(v),
        v.next_id < u32::MAX,
        v.next_plan_id < u32::MAX,
    ensures
        ids_in_order(after(v, call)),
{
    let now = after(v, call);
    calls_change_only_their_part(v, call);
    assert forall|id: u32| #[trigger] now.subscriptions.contains_key(id) implies id
        < now.next_id by {
        if subscription_of(call) == Some(id) || opens_subscription(call) {
            reveal(after);
            assert(v.subscriptions.contains_key(id) ==> id < v.next_id);
        } else {
            assert(now.subscription(id) == v.subscription(id));
            assert(v.subscriptions.contains_key(id));
        }
    }
    assert forall|id: u32| #[trigger] now.plans.contains_key(id) implies id
        < now.next_plan_id by {
        if adds_plan(call) {
            reveal(after);
            assert(v.plans.contains_key(id) ==> id < v.next_plan_id);
        }
    }
    assert forall|id: u32| #[trigger]
        now.subscription_plans.contains_key(id) implies now.subscriptions.contains_key(id)
        && now.plans.contains_key(now.subscription_plans[id]) by {
        if call is Subscribe || call is Migrate {
            reveal(after);
            assert(v.subscription_plans.contains_key(id) ==> v.subscriptions.contains_key(id)
                && v.plans.contains_key(v.subscription_plans[id]));
        } else {
            assert(v.subscription_plans.contains_key(id));
            lemma_no_subscription_disappears(v, call, id);
            lemma_no_plan_disappears(v, call, v.subscription_plans[id]);
        }
    }
}

/// The subscriptions listed for `key` in an index.
pub open spec fn listed_for(index: Map<Address, Seq<u32>>, key: Address) -> Seq<u32> {
    value_or(index, key, Seq::empty())
}

/// The indexes are complete and exact: a subscription is listed once under its merchant and
/// once under its token, and nowhere else.
pub open spec fn indexes_agree(v: VaultState) -> bool {
    &&& forall|m: Address, id: u32|
        #![trigger listed_for(v.merchant_subs, m).contains(id)]
        listed_for(v.merchant_subs, m).contains(id) <==> v.subscriptions.contains_key(id)
            && v.subscriptions[id].merchant == m
    &&& forall|t: Address, id: u32|
        #![trigger listed_for(v.token_subs, t).contains(id)]
        listed_for(v.token_subs, t).contains(id) <==> v.subscriptions.contains_key(id)
            && v.subscriptions[id].token == t
    &&& forall|m: Address| (#[trigger] listed_for(v.merchant_subs, m)).no_duplicates()
    &&& forall|t: Address| (#[trigger] listed_for(v.token_subs, t)).no_duplicates()
}

proof fn lemma_push_contains(list: Seq<u32>, id: u32, other: u32)
    ensures
        list.push(id).contains(other) <==> list.contains(other) || other == id,
        list.no_duplicates() && !list.contains(id) ==> list.push(id).no_duplicates(),
{
    let longer = list.push(id);
    assert(longer[list.len() as int] == id);
    if list.contains(other) {
        let i = choose|i: int| 0 <= i < list.len() && list[i] == other;
        assert(longer[i] == other);
    }
}

/// Every call keeps the indexes complete and exact, where the IDs are in order.
pub proof fn every_call_keeps_indexes_agree(v: VaultState, call: Call)
    requires
        ids_in_order(v),
        indexes_agree(v),
    ensures
        indexes_agree(after(v, call)),
{
    let now = after(v, call);
    calls_change_only_their_part(v, call);
    if opens_subscription(call) {
        lemma_opening_keeps_indexes_agree(v, call);
    } else {
        assert forall|id: u32|
            #![trigger now.subscriptions.contains_key(id)]
            {
                &&& now.subscriptions.contains_key(id) <==> v.subscriptions.contains_key(id)
                &&& v.subscriptions.contains_key(id) ==> now.subscriptions[id].merchant
                    == v.subscriptions[id].merchant && now.subscriptions[id].token
                    == v.subscriptions[id].token
            } by {
            if subscription_of(call) == Some(id) {
                reveal(after);
            } else {
                assert(now.subscription(id) == v.subscription(id));
            }
        }
    }
}

proof fn lemma_opening_keeps_indexes_agree(v: VaultState, call: Call)
    requires
        opens_subscription(call),
        ids_in_order(v),
        indexes_agree(v),
    ensures
        indexes_agree(after(v, call)),
{
    reveal(after);
    let now = after(v, call);
    let id = v.next_id;
    assert(!v.subscriptions.contains_key(id));
    if now.subscriptions != v.subscriptions {
        let sub = now.subscriptions[id];
        assert(now.merchant_subs == append_to(v.merchant_subs, sub.merchant, id));
        assert(now.token_subs == append_to(v.token_subs, sub.token, id));
        assert(now.subscriptions == v.subscriptions.insert(id, sub));
        assert forall|m: Address, other: u32|
            #![trigger listed_for(now.merchant_subs, m).contains(other)]
            listed_for(now.merchant_subs, m).contains(other)
                <==> now.subscriptions.contains_key(other) && now.subscriptions[other].merchant
                == m by {
            lemma_push_contains(listed_for(v.merchant_subs, sub.merchant), id, other);
            assert(listed_for(v.merchant_subs, m).contains(other)
                <==> v.subscriptions.contains_key(other) && v.subscriptions[other].merchant == m);
        }
        assert forall|t: Address, other: u32|
            #![trigger listed_for(now.token_subs, t).contains(other)]
            listed_for(now.token_subs, t).contains(other) <==> now.subscriptions.contains_key(
                other,
            ) && now.subscriptions[other].token == t by {
            lemma_push_contains(listed_for(v.token_subs, sub.token), id, other);
            assert(listed_for(v.token_subs, t).contains(other) <==> v.subscriptions.contains_key(
                other,
            ) && v.subscriptions[other].token == t);
        }
        assert forall|m: Address| (#[trigger] listed_for(
            now.merchant_subs,
            m,
        )).no_duplicates() by {
            lemma_push_contains(listed_for(v.merchant_subs, sub.merchant), id, id);
            assert(listed_for(v.merchant_subs, m).no_duplicates());
            assert(!listed_for(v.merchant_subs, sub.merchant).contains(id));
        }
        assert forall|t: Address| (#[trigger] listed_for(now.token_subs, t)).no_duplicates() by {
            lemma_push_contains(listed_for(v.token_subs, sub.token), id, id);
            assert(listed_for(v.token_subs, t).no_duplicates());
            assert(!listed_for(v.token_subs, sub.token).contains(id));
        }
    }
}

/// The statements of each subscription are numbered from zero without gaps.
pub open spec fn statements_in_order(v: VaultState) -> bool {
    forall|key: StatementId| #[trigger]
        v.statements.contains_key(key) <==> key.sequence < v.statement_count(key.subscription_id)
}

/// Every call keeps the statements numbered without gaps.
pub proof fn every_call_keeps_statements_in_order(v: VaultState, call: Call)
    requires
        statements_in_order(v),
    ensures
        statements_in_order(after(v, call)),
{
    calls_change_only_their_part(v, call);
    let now = after(v, call);
    assert forall|key: StatementId| #[trigger] now.statements.contains_key(key) <==> key.sequence
        < now.statement_count(key.subscription_id) by {
        assert(v.statements.contains_key(key) <==> key.sequence < v.statement_count(
            key.subscription_id,
        ));
        if call is ChargeOneOff {
            reveal(after);
        }
    }
}

/// A statement, once recorded, is never changed.
pub proof fn statements_are_permanent(v: VaultState, call: Call, key: StatementId)
    requires
        statements_in_order(v),
        v.statements.contains_key(key),
    ensures
        after(v, call).statements.contains_key(key),
        after(v, call).statements[key] == v.statements[key],
{
    calls_change_only_their_part(v, call);
    if call is ChargeOneOff {
        reveal(after);
    }
}

/// None of these properties depends on the time or on what an operation asked for, so they
/// hold from one operation to the next.
pub proof fn the_next_operation_starts_in_order(v: VaultState, now: u64)
    requires
        tokens_agree(v),
        books_in_order(v),
        ids_in_order(v),
        indexes_agree(v),
        statements_in_order(v),
    ensures
        tokens_agree(at_time(v, now)),
        books_in_order(at_time(v, now)),
        ids_in_order(at_time(v, now)),
        indexes_agree(at_time(v, now)),
        statements_in_order(at_time(v, now)),
{
    let w = at_time(v, now);
    assert forall|t: Address| w.accepted_tokens.contains(t) <==> #[trigger] w.accepts(t) by {
        assert(v.accepted_tokens.contains(t) <==> v.accepts(t));
    }
    assert forall|key: StatementId| #[trigger] w.statements.contains_key(key) <==> key.sequence
        < w.statement_count(key.subscription_id) by {
        assert(v.statements.contains_key(key) <==> key.sequence < v.statement_count(
            key.subscription_id,
        ));
    }
}

/// A new vault has all of these properties.
pub proof fn new_vault_is_in_order(contract: Address, timestamp: u64)
    ensures
        tokens_agree(empty_vault(contract, timestamp)),
        books_in_order(empty_vault(contract, timestamp)),
        ids_in_order(empty_vault(contract, timestamp)),
        indexes_agree(empty_vault(contract, timestamp)),
        statements_in_order(empty_vault(contract, timestamp)),
{
}

} // verus!
