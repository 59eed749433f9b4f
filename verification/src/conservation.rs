//! Every token in the books belongs to someone: what the vault owes to subscribers and
//! merchants moves together with what it accounts for and with what is transferred.

use vstd::prelude::*;
use vstd::set::fold::{is_fun_commutative, lemma_fold_empty, lemma_fold_insert};

use crate::calls::{adds_plan, after, opens_subscription, refusal, subscription_of, Call};
use crate::events::Action;
use crate::laws::calls_change_only_their_part;
use crate::merchant::{credit_after, credit_refusal};
use crate::types::{AccountToken, Address, BillingChargeKind, Subscription};
use crate::vault::{empty_vault, value_or, Vault, VaultState};

verus! {

/// The step of a sum over keys.
pub open spec fn sum_step<K>(amount: spec_fn(K) -> int) -> spec_fn(int, K) -> int {
    |total: int, key: K| total + amount(key)
}

/// The sum of the amounts of finitely many keys.
pub open spec fn sum_over<K>(keys: Set<K>, amount: spec_fn(K) -> int) -> int {
    keys.fold(0, sum_step(amount))
}

proof fn lemma_sum_insert<K>(keys: Set<K>, amount: spec_fn(K) -> int, key: K)
    requires
        keys.finite(),
        !keys.contains(key),
    ensures
        sum_over(keys.insert(key), amount) == sum_over(keys, amount) + amount(key),
{
    assert(is_fun_commutative(sum_step(amount)));
    lemma_fold_insert(keys, 0, sum_step(amount), key);
}

proof fn lemma_sum_same<K>(keys: Set<K>, f: spec_fn(K) -> int, g: spec_fn(K) -> int)
    requires
        keys.finite(),
        forall|key: K| #[trigger] keys.contains(key) ==> f(key) == g(key),
    ensures
        sum_over(keys, f) == sum_over(keys, g),
    decreases keys.len(),
{
    if keys.len() == 0 {
        assert(keys =~= Set::empty());
        lemma_fold_empty::<K, int>(0, sum_step(f));
        lemma_fold_empty::<K, int>(0, sum_step(g));
    } else {
        let key = keys.choose();
        let rest = keys.remove(key);
        assert(keys =~= rest.insert(key));
        lemma_sum_same(rest, f, g);
        lemma_sum_insert(rest, f, key);
        lemma_sum_insert(rest, g, key);
    }
}

/// Changing the amount of one key, which may be new, changes the sum by the difference.
proof fn lemma_sum_update<K>(keys: Set<K>, f: spec_fn(K) -> int, g: spec_fn(K) -> int, key: K)
    requires
        keys.finite(),
        forall|other: K| #[trigger] keys.contains(other) && other != key ==> f(other) == g(other),
    ensures
        sum_over(keys.insert(key), g) == sum_over(keys, f) + g(key) - (if keys.contains(key) {
            f(key)
        } else {
            0
        }),
{
    let rest = keys.remove(key);
    assert(keys.insert(key) =~= rest.insert(key));
    assert forall|other: K| #[trigger] rest.contains(other) implies f(other) == g(other) by {
        assert(keys.contains(other));
    }
    lemma_sum_same(rest, f, g);
    lemma_sum_insert(rest, g, key);
    if keys.contains(key) {
        assert(keys =~= rest.insert(key));
        lemma_sum_insert(rest, f, key);
    } else {
        assert(keys =~= rest);
    }
}

/// What a subscription holds of `token`.
pub open spec fn prepaid(sub: Subscription, token: Address) -> int {
    if sub.token == token {
        sub.prepaid_balance as int
    } else {
        0
    }
}

/// What the subscription with each ID holds of `token`.
pub open spec fn prepaid_by_id(
    subs: Map<u32, Subscription>,
    token: Address,
) -> spec_fn(u32) -> int {
    |id: u32| prepaid(subs[id], token)
}

/// What each merchant can withdraw of `token`.
pub open spec fn balance_by_key(
    balances: Map<AccountToken, i128>,
    token: Address,
) -> spec_fn(AccountToken) -> int {
    |key: AccountToken|
        if key.token == token {
            balances[key] as int
        } else {
            0
        }
}

/// What all subscriptions hold of `token`.
pub open spec fn prepaid_total(subs: Map<u32, Subscription>, token: Address) -> int {
    sum_over(subs.dom(), prepaid_by_id(subs, token))
}

/// What all merchants can withdraw of `token`.
pub open spec fn balance_total(balances: Map<AccountToken, i128>, token: Address) -> int {
    sum_over(balances.dom(), balance_by_key(balances, token))
}

/// What the vault owes in `token` to subscribers and merchants together.
pub open spec fn owed(v: VaultState, token: Address) -> int {
    prepaid_total(v.subscriptions, token) + balance_total(v.merchant_balances, token)
}

/// Whether the vault holds finitely many records, as every vault does.
pub open spec fn finite(v: VaultState) -> bool {
    v.subscriptions.dom().finite() && v.merchant_balances.dom().finite()
}

/// Every vault holds finitely many records.
pub proof fn every_vault_is_finite(vault: &Vault)
    ensures
        finite(vault@),
{
    vault.subscriptions.lemma_finite();
    vault.merchant_balances.lemma_finite();
}

proof fn lemma_prepaid_insert(
    subs: Map<u32, Subscription>,
    id: u32,
    sub: Subscription,
    token: Address,
)
    requires
        subs.dom().finite(),
    ensures
        prepaid_total(subs.insert(id, sub), token) == prepaid_total(subs, token) + prepaid(
            sub,
            token,
        ) - (if subs.contains_key(id) {
            prepaid(subs[id], token)
        } else {
            0
        }),
{
    let now = subs.insert(id, sub);
    assert(now.dom() =~= subs.dom().insert(id));
    lemma_sum_update(subs.dom(), prepaid_by_id(subs, token), prepaid_by_id(now, token), id);
}

proof fn lemma_balance_insert(
    balances: Map<AccountToken, i128>,
    key: AccountToken,
    balance: i128,
    token: Address,
)
    requires
        balances.dom().finite(),
    ensures
        balance_total(balances.insert(key, balance), token) == balance_total(balances, token)
            + (if key.token == token {
            balance - value_or(balances, key, 0)
        } else {
            0
        }),
{
    let now = balances.insert(key, balance);
    assert(now.dom() =~= balances.dom().insert(key));
    lemma_sum_update(
        balances.dom(),
        balance_by_key(balances, token),
        balance_by_key(now, token),
        key,
    );
}

/// By how much a call that succeeds changes what its subscription holds.
spec fn prepaid_change(v: VaultState, call: Call) -> int {
    match call {
        Call::Deposit { amount, .. } => amount as int,
        Call::ChargeOneOff { amount, .. } => -amount,
        Call::PartialRefund { amount, .. } => -amount,
        Call::WithdrawSubscriber { subscription_id, .. } => {
            -v.subscriptions[subscription_id].prepaid_balance
        },
        _ => 0,
    }
}

/// The token in which a call moves amounts.
spec fn moved_token(v: VaultState, call: Call) -> Option<Address> {
    match call {
        Call::Deposit { subscription_id, .. } => Some(v.subscriptions[subscription_id].token),
        Call::ChargeOneOff { subscription_id, .. } => Some(v.subscriptions[subscription_id].token),
        Call::PartialRefund { subscription_id, .. } => Some(
            v.subscriptions[subscription_id].token,
        ),
        Call::WithdrawSubscriber { subscription_id, .. } => Some(
            v.subscriptions[subscription_id].token,
        ),
        Call::WithdrawMerchant { token, .. } => Some(token),
        Call::RefundByMerchant { token, .. } => Some(token),
        Call::Recover { token, .. } => Some(token),
        _ => None,
    }
}

/// By how much a call that succeeds changes what merchants can withdraw.
spec fn balance_change(call: Call) -> int {
    match call {
        Call::ChargeOneOff { amount, .. } => amount as int,
        Call::WithdrawMerchant { amount, .. } => -amount,
        Call::RefundByMerchant { amount, .. } => -amount,
        _ => 0,
    }
}

/// By how much a call that succeeds changes what the vault accounts for.
spec fn accounted_change(v: VaultState, call: Call) -> int {
    match call {
        Call::Deposit { amount, .. } => amount as int,
        Call::WithdrawMerchant { amount, .. } => -amount,
        Call::PartialRefund { amount, .. } => -amount,
        Call::WithdrawSubscriber { subscription_id, .. } => {
            -v.subscriptions[subscription_id].prepaid_balance
        },
        _ => 0,
    }
}

proof fn lemma_prepaid_change(v: VaultState, call: Call)
    requires
        refusal(v, call) is None,
        subscription_of(call) is Some,
    ensures
        ({
            let id = subscription_of(call)->0;
            let sub = after(v, call).subscriptions[id];
            &&& v.subscriptions.contains_key(id)
            &&& sub.token == v.subscriptions[id].token
            &&& sub.prepaid_balance == v.subscriptions[id].prepaid_balance + prepaid_change(v, call)
            &&& after(v, call).subscriptions == v.subscriptions.insert(id, sub)
        }),
{
    reveal(refusal);
    reveal(after);
    calls_change_only_their_part(v, call);
    let id = subscription_of(call)->0;
    let now = after(v, call);
    assert forall|other: u32| #[trigger]
        now.subscriptions.contains_key(other) == v.subscriptions.contains_key(other) by {
        if other != id {
            assert(now.subscription(other) == v.subscription(other));
        }
    }
    assert forall|other: u32| other != id && v.subscriptions.contains_key(other) implies
        #[trigger] now.subscriptions[other] == v.subscriptions[other] by {
        assert(now.subscription(other) == v.subscription(other));
    }
    assert(now.subscriptions =~= v.subscriptions.insert(id, now.subscriptions[id]));
}

proof fn lemma_prepaid_total_change(v: VaultState, call: Call, token: Address)
    requires
        finite(v),
        refusal(v, call) is None,
        !v.subscriptions.contains_key(v.next_id),
    ensures
        prepaid_total(after(v, call).subscriptions, token) == prepaid_total(v.subscriptions, token)
            + (if moved_token(v, call) == Some(token) {
            prepaid_change(v, call)
        } else {
            0
        }),
{
    let now = after(v, call);
    calls_change_only_their_part(v, call);
    if subscription_of(call) is Some {
        let id = subscription_of(call)->0;
        lemma_prepaid_change(v, call);
        lemma_prepaid_insert(v.subscriptions, id, now.subscriptions[id], token);
    } else if opens_subscription(call) {
        let id = v.next_id;
        assert(now.subscriptions == v.subscriptions.insert(id, now.subscriptions[id])
            && now.subscriptions[id].prepaid_balance == 0) by {
            reveal(refusal);
            reveal(after);
        }
        lemma_prepaid_insert(v.subscriptions, id, now.subscriptions[id], token);
    }
}

proof fn lemma_balance_total_change(v: VaultState, call: Call, token: Address)
    requires
        finite(v),
        refusal(v, call) is None,
    ensures
        balance_total(after(v, call).merchant_balances, token) == balance_total(
            v.merchant_balances,
            token,
        ) + (if moved_token(v, call) == Some(token) {
            balance_change(call)
        } else {
            0
        }),
{
    let now = after(v, call);
    calls_change_only_their_part(v, call);
    if call is ChargeOneOff || call is WithdrawMerchant || call is RefundByMerchant {
        reveal(refusal);
        reveal(after);
        let moved = moved_token(v, call)->0;
        let merchant = match call {
            Call::ChargeOneOff { merchant, .. } => merchant,
            Call::WithdrawMerchant { merchant, .. } => merchant,
            Call::RefundByMerchant { merchant, .. } => merchant,
            _ => v.contract,
        };
        let key = AccountToken { account: merchant, token: moved };
        let balance = now.merchant_balances[key];
        assert(now.merchant_balances =~= v.merchant_balances.insert(key, balance));
        assert(balance == value_or(v.merchant_balances, key, 0) + balance_change(call));
        lemma_balance_insert(v.merchant_balances, key, balance, token);
    }
}

proof fn lemma_accounted_change(v: VaultState, call: Call, token: Address)
    requires
        refusal(v, call) is None,
    ensures
        after(v, call).accounted(token) == v.accounted(token) + (if moved_token(v, call) == Some(
            token,
        ) {
            accounted_change(v, call)
        } else {
            0
        }),
{
    calls_change_only_their_part(v, call);
    if call is Deposit || call is WithdrawMerchant || call is WithdrawSubscriber
        || call is PartialRefund {
        reveal(refusal);
        reveal(after);
    }
}

/// A call that succeeds changes what the vault owes and what it accounts for by the same
/// amount, token by token. The exception is a refund by a merchant.
pub proof fn owed_and_accounted_move_together(v: VaultState, call: Call, token: Address)
    requires
        finite(v),
        refusal(v, call) is None,
        !v.subscriptions.contains_key(v.next_id),
        !(call is RefundByMerchant),
    ensures
        owed(after(v, call), token) - after(v, call).accounted(token) == owed(v, token)
            - v.accounted(token),
{
    lemma_prepaid_total_change(v, call, token);
    lemma_balance_total_change(v, call, token);
    lemma_accounted_change(v, call, token);
}

/// A refund by a merchant lowers what the vault owes by the refunded amount, and nothing that
/// it accounts for.
pub proof fn refund_by_merchant_lowers_only_what_is_owed(
    v: VaultState,
    merchant: Address,
    subscriber: Address,
    refunded: Address,
    amount: i128,
    token: Address,
)
    requires
        finite(v),
        refusal(
            v,
            (Call::RefundByMerchant { merchant, subscriber, token: refunded, amount }),
        ) is None,
        !v.subscriptions.contains_key(v.next_id),
    ensures
        ({
            let call = Call::RefundByMerchant { merchant, subscriber, token: refunded, amount };
            &&& after(v, call).accounted(token) == v.accounted(token)
            &&& owed(after(v, call), token) == owed(v, token) - (if token == refunded {
                amount as int
            } else {
                0
            })
        }),
{
    let call = Call::RefundByMerchant { merchant, subscriber, token: refunded, amount };
    lemma_prepaid_total_change(v, call, token);
    lemma_balance_total_change(v, call, token);
    lemma_accounted_change(v, call, token);
}

/// Crediting a merchant raises what the vault owes by the credited amount: whoever credits
/// takes it from a subscription.
pub proof fn credit_raises_what_is_owed(
    v: VaultState,
    merchant: Address,
    credited: Address,
    amount: i128,
    kind: BillingChargeKind,
    token: Address,
)
    requires
        finite(v),
        credit_refusal(v, merchant, credited, amount, kind) is None,
    ensures
        ({
            let now = credit_after(v, merchant, credited, amount, kind);
            &&& now.accounted(token) == v.accounted(token)
            &&& owed(now, token) == owed(v, token) + (if token == credited {
                amount as int
            } else {
                0
            })
        }),
{
    let key = AccountToken { account: merchant, token: credited };
    let balance = (v.merchant_balance(merchant, credited) + amount) as i128;
    lemma_balance_insert(v.merchant_balances, key, balance, token);
}

/// What an action moves of `token` into the vault at `contract`, less what it moves out.
pub open spec fn inflow(action: Action, contract: Address, token: Address) -> int {
    match action {
        Action::Transfer(transfer) => if transfer.token != token {
            0
        } else {
            (if transfer.to == contract {
                transfer.amount as int
            } else {
                0
            }) - (if transfer.from == contract {
                transfer.amount as int
            } else {
                0
            })
        },
        _ => 0,
    }
}

/// What a list of actions moves of `token` into the vault, less what it moves out.
pub open spec fn net_inflow(actions: Seq<Action>, contract: Address, token: Address) -> int
    decreases actions.len(),
{
    if actions.len() == 0 {
        0
    } else {
        net_inflow(actions.drop_last(), contract, token) + inflow(
            actions.last(),
            contract,
            token,
        )
    }
}

broadcast proof fn lemma_net_inflow_push(
    actions: Seq<Action>,
    action: Action,
    contract: Address,
    token: Address,
)
    ensures
        #[trigger] net_inflow(actions.push(action), contract, token) == net_inflow(
            actions,
            contract,
            token,
        ) + inflow(action, contract, token),
{
    assert(actions.push(action).drop_last() =~= actions);
}

/// The account with which a call exchanges tokens.
pub open spec fn counterparty(call: Call) -> Option<Address> {
    match call {
        Call::Deposit { subscriber, .. } => Some(subscriber),
        Call::WithdrawMerchant { merchant, .. } => Some(merchant),
        Call::RefundByMerchant { subscriber, .. } => Some(subscriber),
        Call::WithdrawSubscriber { subscriber, .. } => Some(subscriber),
        Call::PartialRefund { subscriber, .. } => Some(subscriber),
        Call::Recover { recipient, .. } => Some(recipient),
        _ => None,
    }
}

/// What a call that succeeds moves into the vault when its counterparty is someone else.
spec fn inflow_change(v: VaultState, call: Call) -> int {
    match call {
        Call::RefundByMerchant { amount, .. } => -amount,
        Call::Recover { amount, .. } => -amount,
        _ => accounted_change(v, call),
    }
}

proof fn lemma_payment_inflow(v: VaultState, call: Call, token: Address)
    requires
        refusal(v, call) is None,
        counterparty(call) is Some,
    ensures
        net_inflow(after(v, call).actions, v.contract, token) == net_inflow(
            v.actions,
            v.contract,
            token,
        ) + (if moved_token(v, call) == Some(token) && counterparty(call) != Some(v.contract) {
            inflow_change(v, call)
        } else {
            0
        }),
{
    broadcast use lemma_net_inflow_push;

    reveal(refusal);
    reveal(after);
}

proof fn lemma_settings_inflow(v: VaultState, call: Call, token: Address)
    requires
        refusal(v, call) is None,
        call is Init || call is SetMinTopup || call is SetGracePeriod || call is AddToken
            || call is RemoveToken || call is RotateAdmin || call is SetProtocolFee
            || call is PauseMerchant || call is UnpauseMerchant || call is ConfigureMerchant
            || call is ConfigureUsage || call is SetPlanLimit || call is SetCreditLimit,
    ensures
        net_inflow(after(v, call).actions, v.contract, token) == net_inflow(
            v.actions,
            v.contract,
            token,
        ),
{
    broadcast use lemma_net_inflow_push;

    reveal(refusal);
    reveal(after);
}

proof fn lemma_record_inflow(v: VaultState, call: Call, token: Address)
    requires
        refusal(v, call) is None,
        opens_subscription(call) || adds_plan(call) || call is Cancel || call is Pause
            || call is Resume || call is Cleanup || call is Migrate,
    ensures
        net_inflow(after(v, call).actions, v.contract, token) == net_inflow(
            v.actions,
            v.contract,
            token,
        ),
{
    broadcast use lemma_net_inflow_push;

    reveal(refusal);
    reveal(after);
}

proof fn lemma_charge_inflow(v: VaultState, call: Call, token: Address)
    requires
        refusal(v, call) is None,
        call is ChargeOneOff,
    ensures
        net_inflow(after(v, call).actions, v.contract, token) == net_inflow(
            v.actions,
            v.contract,
            token,
        ),
{
    broadcast use lemma_net_inflow_push;

    reveal(refusal);
    reveal(after);
}

proof fn lemma_inflow(v: VaultState, call: Call, token: Address)
    requires
        refusal(v, call) is None,
    ensures
        net_inflow(after(v, call).actions, v.contract, token) == net_inflow(
            v.actions,
            v.contract,
            token,
        ) + (if moved_token(v, call) == Some(token) && counterparty(call) != Some(v.contract) {
            inflow_change(v, call)
        } else {
            0
        }),
{
    if counterparty(call) is Some {
        lemma_payment_inflow(v, call, token);
    } else if opens_subscription(call) || adds_plan(call) || call is Cancel || call is Pause
        || call is Resume || call is Cleanup || call is Migrate {
        lemma_record_inflow(v, call, token);
    } else if call is ChargeOneOff {
        lemma_charge_inflow(v, call, token);
    } else {
        lemma_settings_inflow(v, call, token);
    }
}

/// What a call that succeeds adds to what the vault accounts for is what it transfers into the
/// vault, and what it takes away is what it transfers out. The exceptions are a refund by a
/// merchant and a recovery, which only transfer.
pub proof fn accounted_follows_the_transfers(v: VaultState, call: Call, token: Address)
    requires
        refusal(v, call) is None,
        counterparty(call) != Some(v.contract),
        !(call is RefundByMerchant),
        !(call is Recover),
    ensures
        after(v, call).accounted(token) - v.accounted(token) == net_inflow(
            after(v, call).actions,
            v.contract,
            token,
        ) - net_inflow(v.actions, v.contract, token),
{
    lemma_accounted_change(v, call, token);
    lemma_inflow(v, call, token);
}

/// Whether a vault that holds `holdings` of `token` can pay all that it owes, and accounts for
/// all of it.
pub open spec fn solvent(v: VaultState, token: Address, holdings: int) -> bool {
    owed(v, token) <= v.accounted(token) && owed(v, token) <= holdings
}

/// A call that succeeds leaves a solvent vault solvent.
///
/// `holdings` is what the token contract says the vault holds before the call. A deposit by the
/// vault itself, which cannot bring anything in, is left out.
pub proof fn success_keeps_the_vault_solvent(
    v: VaultState,
    call: Call,
    token: Address,
    holdings: int,
)
    requires
        finite(v),
        refusal(v, call) is None,
        !v.subscriptions.contains_key(v.next_id),
        call matches Call::Deposit { subscriber, .. } ==> subscriber != v.contract,
        call matches Call::Recover { token: recovered, contract_balance, .. } ==> recovered
            == token ==> contract_balance == holdings,
        solvent(v, token, holdings),
    ensures
        solvent(
            after(v, call),
            token,
            holdings + net_inflow(after(v, call).actions, v.contract, token) - net_inflow(
                v.actions,
                v.contract,
                token,
            ),
        ),
{
    lemma_prepaid_total_change(v, call, token);
    lemma_balance_total_change(v, call, token);
    lemma_accounted_change(v, call, token);
    lemma_inflow(v, call, token);
    if counterparty(call) is Some {
        reveal(refusal);
    }
}

/// A new vault owes nothing, so it is solvent whatever it holds.
pub proof fn new_vault_is_solvent(contract: Address, timestamp: u64, token: Address, holdings: nat)
    ensures
        finite(empty_vault(contract, timestamp)),
        solvent(empty_vault(contract, timestamp), token, holdings as int),
{
    let v = empty_vault(contract, timestamp);
    lemma_fold_empty::<u32, int>(0, sum_step(prepaid_by_id(v.subscriptions, token)));
    lemma_fold_empty::<AccountToken, int>(
        0,
        sum_step(balance_by_key(v.merchant_balances, token)),
    );
    assert(v.subscriptions.dom() =~= Set::empty());
    assert(v.merchant_balances.dom() =~= Set::empty());
}

} // verus!
