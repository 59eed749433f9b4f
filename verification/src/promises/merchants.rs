//! What is promised to merchants.

use vstd::prelude::*;

use crate::events::{lemma_demands_push, lemma_events_push, Action, Event, Transfer};
use crate::merchant::{
    check_merchant_withdrawal, credit_merchant_balance, credit_merchant_balance_for_token,
    get_merchant_balance, get_merchant_balance_by_token, get_merchant_config,
    get_merchant_paused, get_merchant_token_earnings, get_merchant_total_earnings,
    get_reconciliation_snapshot, merchant_refund, pause_merchant, set_merchant_config,
    set_merchant_paused, unpause_merchant, withdraw_merchant_funds,
    withdraw_merchant_funds_for_token,
};
use crate::promises::subscriptions::earns;
use crate::promises::{amount_at, flagged, in_range, list_at, of, only_asked, recorded};
use crate::types::{
    Address, BillingChargeKind, Error, MerchantConfig, MerchantPausedEvent, MerchantRefundEvent,
    MerchantUnpausedEvent, MerchantWithdrawalEvent, TokenEarnings, TokenReconciliationSnapshot,
};
use crate::vault::{Vault, VaultState};

verus! {

/// Whether `merchant` is paused: by its configuration or by its flag.
pub open spec fn is_paused(v: VaultState, merchant: Address) -> bool {
    ||| v.merchant_configs.contains_key(merchant) && v.merchant_configs[merchant].is_paused
    ||| flagged(v.merchant_paused, merchant)
}

/// A merchant is paused by its configuration or by its flag.
pub proof fn a_pause_has_two_causes(vault: &Vault, merchant: Address, paused: bool)
    requires
        call_ensures(get_merchant_paused, (vault, merchant), paused),
    ensures
        paused == is_paused(vault@, merchant),
{
}

/// Setting the flag of a merchant sets that flag and nothing else.
pub proof fn a_pause_flag_is_set(vault: &mut Vault, merchant: Address, paused: bool)
    requires
        call_ensures(set_merchant_paused, (vault, merchant, paused), ()),
    ensures
        final(vault)@ == (VaultState {
            merchant_paused: old(vault)@.merchant_paused.insert(merchant, paused),
            ..old(vault)@
        }),
{
}

/// A merchant can always pause. One that is not paused is paused then, and this is announced;
/// for one that is paused nothing happens.
pub proof fn a_merchant_pauses(vault: &mut Vault, merchant: Address, result: Result<(), Error>)
    requires
        call_ensures(pause_merchant, (vault, merchant), result),
    ensures
        result is Ok,
        is_paused(final(vault)@, merchant),
        final(vault)@ == if is_paused(old(vault)@, merchant) {
            only_asked(old(vault)@, merchant)
        } else {
            VaultState {
                merchant_paused: old(vault)@.merchant_paused.insert(merchant, true),
                actions: old(vault)@.actions.push(Action::RequireAuth(merchant)).push(
                    Action::Publish(
                        Event::MerchantPaused(
                            MerchantPausedEvent { merchant, timestamp: old(vault)@.timestamp },
                        ),
                    ),
                ),
                ..old(vault)@
            }
        },
{
}

/// A merchant can always ask for the end of its pause. The flag of one that is paused is
/// cleared then, and this is announced; for one that is not paused nothing happens.
pub proof fn a_merchant_unpauses(vault: &mut Vault, merchant: Address, result: Result<(), Error>)
    requires
        call_ensures(unpause_merchant, (vault, merchant), result),
    ensures
        result is Ok,
        !flagged(final(vault)@.merchant_paused, merchant),
        final(vault)@ == if !is_paused(old(vault)@, merchant) {
            only_asked(old(vault)@, merchant)
        } else {
            VaultState {
                merchant_paused: old(vault)@.merchant_paused.insert(merchant, false),
                actions: old(vault)@.actions.push(Action::RequireAuth(merchant)).push(
                    Action::Publish(
                        Event::MerchantUnpaused(
                            MerchantUnpausedEvent { merchant, timestamp: old(vault)@.timestamp },
                        ),
                    ),
                ),
                ..old(vault)@
            }
        },
{
}

/// The configuration that a merchant hands in is the one that is stored, as it is.
pub proof fn a_configuration_is_stored_as_it_is(
    vault: &mut Vault,
    merchant: Address,
    config: MerchantConfig,
    result: Result<(), Error>,
)
    requires
        call_ensures(set_merchant_config, (vault, merchant, config), result),
    ensures
        result is Ok,
        final(vault)@ == (VaultState {
            merchant_configs: old(vault)@.merchant_configs.insert(merchant, config),
            ..only_asked(old(vault)@, merchant)
        }),
{
}

/// The stored configuration of a merchant is what is read, and only that.
pub proof fn a_stored_configuration_is_read(
    vault: &Vault,
    merchant: Address,
    config: Option<MerchantConfig>,
)
    requires
        call_ensures(get_merchant_config, (vault, merchant), config),
    ensures
        config is Some <==> vault@.merchant_configs.contains_key(merchant),
        config is Some ==> config->0 == vault@.merchant_configs[merchant],
{
}

/// The recorded earnings of a merchant are what is read.
pub proof fn recorded_earnings_are_read(
    vault: &Vault,
    merchant: &Address,
    token: &Address,
    earnings: TokenEarnings,
)
    requires
        call_ensures(get_merchant_token_earnings, (vault, merchant, token), earnings),
    ensures
        earnings == recorded(vault@, *merchant, *token),
{
}

/// The list of earnings names every token in which the merchant has earned, in order, each
/// with what is recorded for it.
pub proof fn all_earnings_are_listed(
    vault: &Vault,
    merchant: &Address,
    list: Vec<(Address, TokenEarnings)>,
)
    requires
        call_ensures(get_merchant_total_earnings, (vault, merchant), list),
    ensures
        list@.len() == list_at(vault@.merchant_tokens, *merchant).len(),
        forall|i: int|
            0 <= i < list@.len() ==> {
                &&& (#[trigger] list@[i]).0 == list_at(vault@.merchant_tokens, *merchant)[i]
                &&& list@[i].1 == recorded(vault@, *merchant, list@[i].0)
            },
{
}

/// `value`, or zero if it cannot be stored as an amount.
pub open spec fn or_zero(value: int) -> int {
    if in_range(value) {
        value
    } else {
        0
    }
}

/// The reconciliation names every token in which the merchant has earned, in order. For each
/// it gives the accruals of all kinds, the withdrawals and the refunds, and as balance what the
/// accruals exceed the other two by. What cannot be stored as an amount counts as zero.
pub proof fn a_reconciliation_sets_accruals_against_payouts(
    vault: &Vault,
    merchant: &Address,
    list: Vec<TokenReconciliationSnapshot>,
)
    requires
        call_ensures(get_reconciliation_snapshot, (vault, merchant), list),
    ensures
        list@.len() == list_at(vault@.merchant_tokens, *merchant).len(),
        forall|i: int|
            0 <= i < list@.len() ==> {
                let entry = #[trigger] list@[i];
                let e = recorded(vault@, *merchant, entry.token);
                &&& entry.token == list_at(vault@.merchant_tokens, *merchant)[i]
                &&& entry.total_withdrawals == e.withdrawals
                &&& entry.total_refunds == e.refunds
                &&& entry.total_accruals == or_zero(
                    or_zero(e.accruals.interval + e.accruals.usage) + e.accruals.one_off,
                )
                &&& entry.computed_balance == or_zero(
                    or_zero(entry.total_accruals - e.withdrawals) - e.refunds,
                )
            },
{
}

/// What a merchant can withdraw of a token is what is stored for it, and of no token named it
/// is that of the default token.
pub proof fn stored_balances_are_read(
    vault: &Vault,
    merchant: &Address,
    token: &Address,
    balance: i128,
    default_balance: i128,
)
    requires
        call_ensures(get_merchant_balance_by_token, (vault, merchant, token), balance),
        call_ensures(get_merchant_balance, (vault, merchant), default_balance),
    ensures
        balance == amount_at(vault@.merchant_balances, of(*merchant, *token)),
        vault@.token is None ==> default_balance == 0,
        vault@.token is Some ==> default_balance == amount_at(
            vault@.merchant_balances,
            of(*merchant, vault@.token->0),
        ),
{
}

/// Whether `w` is `v` with `amount` more for `merchant` to withdraw of `token`, earned by a
/// charge of the given kind.
pub open spec fn credits(
    v: VaultState,
    w: VaultState,
    merchant: Address,
    token: Address,
    amount: i128,
    kind: BillingChargeKind,
) -> bool {
    let key = of(merchant, token);
    &&& w == VaultState {
        merchant_balances: v.merchant_balances.insert(key, w.merchant_balances[key]),
        merchant_earnings: w.merchant_earnings,
        merchant_tokens: w.merchant_tokens,
        ..v
    }
    &&& w.merchant_balances[key] == amount_at(v.merchant_balances, key) + amount
    &&& earns(v, w, merchant, token, amount, kind)
}

/// What has accrued from charges of one kind.
pub open spec fn accrued_from(earnings: TokenEarnings, kind: BillingChargeKind) -> int {
    match kind {
        BillingChargeKind::Interval => earnings.accruals.interval as int,
        BillingChargeKind::Usage => earnings.accruals.usage as int,
        BillingChargeKind::OneOff => earnings.accruals.one_off as int,
    }
}

/// What a credit of `amount` to `merchant` comes to.
pub open spec fn credit_outcome(
    v: VaultState,
    merchant: Address,
    token: Address,
    amount: i128,
    kind: BillingChargeKind,
) -> Result<(), Error> {
    if amount < 0 {
        Err(Error::Underflow)
    } else if !in_range(amount_at(v.merchant_balances, of(merchant, token)) + amount)
        || !in_range(accrued_from(recorded(v, merchant, token), kind) + amount) {
        Err(Error::Overflow)
    } else {
        Ok(())
    }
}

/// A merchant is credited with any amount that is not negative and leaves balance and earnings
/// in range. The amount is added to what can be withdrawn and to what has accrued from charges
/// of that kind, and the token is among those in which the merchant has earned, once.
pub proof fn a_credit_is_earned(
    vault: &mut Vault,
    merchant: &Address,
    token: &Address,
    amount: i128,
    kind: BillingChargeKind,
    result: Result<(), Error>,
)
    requires
        call_ensures(
            credit_merchant_balance_for_token,
            (vault, merchant, token, amount, kind),
            result,
        ),
    ensures
        result == credit_outcome(old(vault)@, *merchant, *token, amount, kind),
        result is Ok ==> credits(old(vault)@, final(vault)@, *merchant, *token, amount, kind),
        result == Err::<(), Error>(Error::Underflow) ==> final(vault)@ == old(vault)@,
        final(vault)@.actions == old(vault)@.actions,
{
    let key = of(*merchant, *token);
    let v = old(vault)@;
    let w = final(vault)@;
    if result is Ok {
        assert(w.merchant_balances =~= v.merchant_balances.insert(key, w.merchant_balances[key]));
        assert(w.merchant_earnings =~= v.merchant_earnings.insert(key, w.merchant_earnings[key]));
    }
}

/// A credit without a token is one in the default token.
pub proof fn a_credit_is_earned_in_the_default_token(
    vault: &mut Vault,
    merchant: &Address,
    amount: i128,
    kind: BillingChargeKind,
    result: Result<(), Error>,
)
    requires
        call_ensures(credit_merchant_balance, (vault, merchant, amount, kind), result),
    ensures
        old(vault)@.token is None ==> result == Err::<(), Error>(Error::NotFound) && final(vault)@
            == old(vault)@,
        old(vault)@.token is Some ==> result == credit_outcome(
            old(vault)@,
            *merchant,
            old(vault)@.token->0,
            amount,
            kind,
        ),
        result is Ok ==> credits(
            old(vault)@,
            final(vault)@,
            *merchant,
            old(vault)@.token->0,
            amount,
            kind,
        ),
        result == Err::<(), Error>(Error::Underflow) ==> final(vault)@ == old(vault)@,
        final(vault)@.actions == old(vault)@.actions,
{
    let key = of(*merchant, old(vault)@.token->0);
    let v = old(vault)@;
    let w = final(vault)@;
    if result is Ok {
        assert(w.merchant_balances =~= v.merchant_balances.insert(key, w.merchant_balances[key]));
        assert(w.merchant_earnings =~= v.merchant_earnings.insert(key, w.merchant_earnings[key]));
    }
}

/// What stands against a withdrawal by a merchant, whatever the vault holds.
pub open spec fn withdrawal_objection(
    v: VaultState,
    merchant: Address,
    token: Address,
    amount: i128,
) -> Option<Error> {
    let balance = amount_at(v.merchant_balances, of(merchant, token));
    if amount <= 0 {
        Some(Error::InvalidAmount)
    } else if !v.token_decimals.contains_key(token) {
        Some(Error::InvalidInput)
    } else if balance == 0 {
        Some(Error::NotFound)
    } else if amount > balance {
        Some(Error::InsufficientBalance)
    } else {
        None
    }
}

/// What can be told about a withdrawal without a look at what the vault holds is told
/// beforehand.
pub proof fn a_withdrawal_is_checked_beforehand(
    vault: &Vault,
    merchant: &Address,
    token: &Address,
    amount: i128,
    result: Result<(), Error>,
)
    requires
        call_ensures(check_merchant_withdrawal, (vault, merchant, token, amount), result),
    ensures
        result is Ok <==> withdrawal_objection(vault@, *merchant, *token, amount) is None,
        result is Err ==> result == Err::<(), Error>(
            withdrawal_objection(vault@, *merchant, *token, amount)->0,
        ),
{
}

/// What a withdrawal by a merchant comes to when the vault holds `held`.
pub open spec fn withdrawal_outcome(
    v: VaultState,
    merchant: Address,
    token: Address,
    amount: i128,
    held: i128,
) -> Result<(), Error> {
    let objection = withdrawal_objection(v, merchant, token, amount);
    if objection is Some {
        Err(objection->0)
    } else if held < amount {
        Err(Error::InsufficientBalance)
    } else if !in_range(amount_at(v.total_accounted, token) - amount) {
        Err(Error::Underflow)
    } else if !in_range(recorded(v, merchant, token).withdrawals + amount) {
        Err(Error::Overflow)
    } else {
        Ok(())
    }
}

/// Whether `w` is `v` after `merchant` has withdrawn `amount` of `token`: its balance and the
/// accounts go down by the amount, its withdrawals go up by it, and the tokens move from the
/// vault to the merchant, after this has been announced.
pub open spec fn withdraws(
    v: VaultState,
    w: VaultState,
    merchant: Address,
    token: Address,
    amount: i128,
) -> bool {
    let key = of(merchant, token);
    let now = w.merchant_earnings[key];
    &&& w == VaultState {
        merchant_balances: v.merchant_balances.insert(key, w.merchant_balances[key]),
        merchant_earnings: v.merchant_earnings.insert(key, now),
        total_accounted: v.total_accounted.insert(token, w.total_accounted[token]),
        actions: w.actions,
        ..v
    }
    &&& w.merchant_balances[key] == amount_at(v.merchant_balances, key) - amount
    &&& w.total_accounted[token] == amount_at(v.total_accounted, token) - amount
    &&& now.withdrawals == recorded(v, merchant, token).withdrawals + amount
    &&& now.refunds == recorded(v, merchant, token).refunds
    &&& now.accruals == recorded(v, merchant, token).accruals
    &&& w.actions == v.actions.push(Action::RequireAuth(merchant)).push(
        Action::Publish(
            Event::MerchantWithdrawal(
                MerchantWithdrawalEvent {
                    merchant,
                    token,
                    amount,
                    remaining_balance: w.merchant_balances[key],
                },
            ),
        ),
    ).push(Action::Transfer(Transfer { token, from: v.contract, to: merchant, amount }))
}

/// A merchant can withdraw any positive part of its balance in an accepted token, as long as
/// the vault holds it.
pub proof fn a_merchant_withdraws_what_it_earned(
    vault: &mut Vault,
    merchant: Address,
    token: Address,
    amount: i128,
    held: i128,
    result: Result<(), Error>,
)
    requires
        call_ensures(
            withdraw_merchant_funds_for_token,
            (vault, merchant, token, amount, held),
            result,
        ),
    ensures
        result == withdrawal_outcome(old(vault)@, merchant, token, amount, held),
        result is Ok ==> withdraws(old(vault)@, final(vault)@, merchant, token, amount),
        result is Err && result != Err::<(), Error>(Error::Underflow) && result != Err::<
            (),
            Error,
        >(Error::Overflow) ==> final(vault)@ == only_asked(old(vault)@, merchant),
        result is Err ==> final(vault)@.demands() == old(vault)@.demands().push(merchant),
        result is Err ==> final(vault)@.events() == old(vault)@.events(),
{
    broadcast use {lemma_demands_push, lemma_events_push};

}

/// A withdrawal without a token is one of the default token.
pub proof fn a_merchant_withdraws_the_default_token(
    vault: &mut Vault,
    merchant: Address,
    amount: i128,
    held: i128,
    result: Result<(), Error>,
)
    requires
        call_ensures(withdraw_merchant_funds, (vault, merchant, amount, held), result),
    ensures
        old(vault)@.token is None ==> result == Err::<(), Error>(Error::NotFound) && final(vault)@
            == old(vault)@,
        old(vault)@.token is Some ==> result == withdrawal_outcome(
            old(vault)@,
            merchant,
            old(vault)@.token->0,
            amount,
            held,
        ),
        result is Ok ==> withdraws(
            old(vault)@,
            final(vault)@,
            merchant,
            old(vault)@.token->0,
            amount,
        ),
        old(vault)@.token is Some && result is Err && result != Err::<(), Error>(Error::Underflow)
            && result != Err::<(), Error>(Error::Overflow) ==> final(vault)@ == only_asked(
            old(vault)@,
            merchant,
        ),
        old(vault)@.token is Some && result is Err ==> {
            &&& final(vault)@.demands() == old(vault)@.demands().push(merchant)
            &&& final(vault)@.events() == old(vault)@.events()
        },
{
    broadcast use {lemma_demands_push, lemma_events_push};

}

/// A merchant can refund any positive part of its balance, in any token, to whomever it names:
/// its balance goes down by the amount, its refunds go up by it, and the tokens move from the
/// vault to the named account, after this has been announced.
pub proof fn a_merchant_refunds_from_its_balance(
    vault: &mut Vault,
    merchant: Address,
    subscriber: Address,
    token: Address,
    amount: i128,
    result: Result<(), Error>,
)
    requires
        call_ensures(merchant_refund, (vault, merchant, subscriber, token, amount), result),
    ensures
        ({
            let balance = amount_at(old(vault)@.merchant_balances, of(merchant, token));
            result == (if amount <= 0 {
                Err::<(), Error>(Error::InvalidAmount)
            } else if balance == 0 {
                Err(Error::NotFound)
            } else if amount > balance {
                Err(Error::InsufficientBalance)
            } else if !in_range(recorded(old(vault)@, merchant, token).refunds + amount) {
                Err(Error::Overflow)
            } else {
                Ok(())
            })
        }),
        result is Ok ==> ({
            let v = old(vault)@;
            let w = final(vault)@;
            let key = of(merchant, token);
            let now = w.merchant_earnings[key];
            &&& w == VaultState {
                merchant_balances: v.merchant_balances.insert(key, w.merchant_balances[key]),
                merchant_earnings: v.merchant_earnings.insert(key, now),
                actions: w.actions,
                ..v
            }
            &&& w.merchant_balances[key] == amount_at(v.merchant_balances, key) - amount
            &&& now.refunds == recorded(v, merchant, token).refunds + amount
            &&& now.withdrawals == recorded(v, merchant, token).withdrawals
            &&& now.accruals == recorded(v, merchant, token).accruals
            &&& w.actions == v.actions.push(Action::RequireAuth(merchant)).push(
                Action::Publish(
                    Event::MerchantRefund(
                        MerchantRefundEvent { merchant, subscriber, token, amount },
                    ),
                ),
            ).push(
                Action::Transfer(Transfer { token, from: v.contract, to: subscriber, amount }),
            )
        }),
        result is Err && result != Err::<(), Error>(Error::Overflow) ==> final(vault)@
            == only_asked(old(vault)@, merchant),
        result is Err ==> final(vault)@.demands() == old(vault)@.demands().push(merchant),
        result is Err ==> final(vault)@.events() == old(vault)@.events(),
{
    broadcast use {lemma_demands_push, lemma_events_push};

}

} // verus!
