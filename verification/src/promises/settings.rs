//! What is promised of the administration of a vault.

use vstd::prelude::*;

use crate::admin::{
    add_accepted_token, batch_charge_result, batch_report, batch_run, charges, check_recovery,
    do_batch_charge, do_get_admin, do_init, do_recover_stranded_funds, do_rotate_admin,
    do_set_grace_period, do_set_min_topup, get_grace_period, get_min_topup,
    get_protocol_fee_bps, get_token, get_token_decimals, get_treasury, is_token_accepted,
    list_accepted_tokens, listed, other_than, remove_accepted_token, require_admin,
    require_admin_auth, require_stored_admin_auth, set_protocol_fee,
};
use crate::events::{Action, Event, Transfer};
use crate::promises::{amount_at, in_range, only_asked};
use crate::types::{
    AcceptedToken, Address, AdminRotatedEvent, BatchChargeResult, ChargeExecutionResult,
    ContractInitializedEvent, Error, ProtocolFeeConfiguredEvent, RecoveryEvent, RecoveryReason,
};
use crate::vault::{Vault, VaultState};

verus! {

/// A vault that has neither a default token nor an admin can be set up, with a minimum deposit
/// that is not negative. It then has what was asked for, and accepts the default token alone.
pub proof fn a_vault_is_set_up_as_asked_for(
    vault: &mut Vault,
    token: Address,
    decimals: u32,
    admin: Address,
    min_topup: i128,
    grace_period: u64,
    result: Result<(), Error>,
)
    requires
        call_ensures(do_init, (vault, token, decimals, admin, min_topup, grace_period), result),
    ensures
        result == (if old(vault)@.token is Some || old(vault)@.admin is Some {
            Err::<(), Error>(Error::AlreadyInitialized)
        } else if min_topup < 0 {
            Err(Error::InvalidAmount)
        } else {
            Ok(())
        }),
        result is Err ==> final(vault)@ == old(vault)@,
        result is Ok ==> ({
            let v = old(vault)@;
            let w = final(vault)@;
            &&& w == VaultState {
                token: w.token,
                token_decimals: w.token_decimals,
                accepted_tokens: w.accepted_tokens,
                admin: w.admin,
                min_topup: w.min_topup,
                grace_period: w.grace_period,
                schema_version: w.schema_version,
                actions: w.actions,
                ..v
            }
            &&& w.token == Some(token)
            &&& w.token_decimals == v.token_decimals.insert(token, decimals)
            &&& w.accepted_tokens == seq![token]
            &&& w.admin == Some(admin)
            &&& w.min_topup == Some(min_topup)
            &&& w.grace_period == Some(grace_period)
            &&& w.schema_version == Some(1u32)
            &&& w.actions == v.actions.push(
                Action::Publish(
                    Event::Initialized(
                        ContractInitializedEvent {
                            token,
                            admin,
                            min_topup,
                            grace_period,
                            timestamp: v.timestamp,
                        },
                    ),
                ),
            )
        }),
{
}

/// What comes of an operation that anyone but the admin is refused.
pub open spec fn as_admin(v: VaultState, account: Address) -> Result<(), Error> {
    if v.admin is None {
        Err(Error::NotInitialized)
    } else if v.admin->0 != account {
        Err(Error::Unauthorized)
    } else {
        Ok(())
    }
}

/// Only the stored admin passes for the admin, and is asked for authorization.
pub proof fn only_the_admin_passes(
    vault: &mut Vault,
    account: &Address,
    result: Result<(), Error>,
)
    requires
        call_ensures(require_admin_auth, (vault, account), result),
    ensures
        result == as_admin(old(vault)@, *account),
        final(vault)@ == only_asked(old(vault)@, *account),
{
}

/// The stored admin is asked for authorization, where there is one.
pub proof fn the_stored_admin_is_asked(vault: &mut Vault, result: Result<Address, Error>)
    requires
        call_ensures(require_stored_admin_auth, (vault,), result),
    ensures
        old(vault)@.admin is None ==> {
            &&& result == Err::<Address, Error>(Error::NotInitialized)
            &&& final(vault)@ == old(vault)@
        },
        old(vault)@.admin is Some ==> {
            &&& result == Ok::<Address, Error>(old(vault)@.admin->0)
            &&& final(vault)@ == only_asked(old(vault)@, old(vault)@.admin->0)
        },
{
}

/// The admin sets the minimum deposit, and this is announced.
pub proof fn the_minimum_is_set_as_asked_for(
    vault: &mut Vault,
    admin: Address,
    min_topup: i128,
    result: Result<(), Error>,
)
    requires
        call_ensures(do_set_min_topup, (vault, admin, min_topup), result),
    ensures
        result == as_admin(old(vault)@, admin),
        result is Err ==> final(vault)@ == only_asked(old(vault)@, admin),
        result is Ok ==> final(vault)@ == (VaultState {
            min_topup: Some(min_topup),
            actions: old(vault)@.actions.push(Action::RequireAuth(admin)).push(
                Action::Publish(Event::MinTopupUpdated(min_topup)),
            ),
            ..old(vault)@
        }),
{
}

/// The admin sets the grace period.
pub proof fn the_grace_period_is_set_as_asked_for(
    vault: &mut Vault,
    admin: Address,
    grace_period: u64,
    result: Result<(), Error>,
)
    requires
        call_ensures(do_set_grace_period, (vault, admin, grace_period), result),
    ensures
        result == as_admin(old(vault)@, admin),
        result is Err ==> final(vault)@ == only_asked(old(vault)@, admin),
        result is Ok ==> final(vault)@ == (VaultState {
            grace_period: Some(grace_period),
            ..only_asked(old(vault)@, admin)
        }),
{
}

/// The admin can have any token accepted, with any number of decimals. A new one comes last in
/// the list; one that is accepted already keeps its place and gets the new decimals.
pub proof fn a_token_is_accepted_as_asked_for(
    vault: &mut Vault,
    admin: Address,
    token: Address,
    decimals: u32,
    result: Result<(), Error>,
)
    requires
        call_ensures(add_accepted_token, (vault, admin, token, decimals), result),
    ensures
        result == as_admin(old(vault)@, admin),
        result is Err ==> final(vault)@ == only_asked(old(vault)@, admin),
        result is Ok ==> final(vault)@ == (VaultState {
            token_decimals: old(vault)@.token_decimals.insert(token, decimals),
            accepted_tokens: final(vault)@.accepted_tokens,
            ..only_asked(old(vault)@, admin)
        }),
        result is Ok ==> final(vault)@.accepted_tokens == if old(
            vault,
        )@.token_decimals.contains_key(token) {
            old(vault)@.accepted_tokens
        } else {
            old(vault)@.accepted_tokens.push(token)
        },
{
}

/// The admin can have any token but the default one no longer accepted. The others keep their
/// order.
pub proof fn a_token_is_removed_as_asked_for(
    vault: &mut Vault,
    admin: Address,
    token: Address,
    result: Result<(), Error>,
)
    requires
        call_ensures(remove_accepted_token, (vault, admin, token), result),
    ensures
        result == (if as_admin(old(vault)@, admin) is Err {
            as_admin(old(vault)@, admin)
        } else if old(vault)@.token is None {
            Err(Error::NotFound)
        } else if old(vault)@.token->0 == token {
            Err(Error::InvalidInput)
        } else {
            Ok(())
        }),
        result is Err ==> final(vault)@ == only_asked(old(vault)@, admin),
        result is Ok ==> final(vault)@ == (VaultState {
            token_decimals: old(vault)@.token_decimals.remove(token),
            accepted_tokens: final(vault)@.accepted_tokens,
            ..only_asked(old(vault)@, admin)
        }),
        result is Ok ==> final(vault)@.accepted_tokens == old(vault)@.accepted_tokens.filter(
            |t: Address| t != token,
        ),
{
    let kept = |t: Address| t != token;
    assert(kept =~= other_than(token));
}

/// The list of accepted tokens names each of them with its decimals, in the order in which
/// they were accepted.
pub proof fn accepted_tokens_are_listed(vault: &Vault, list: Vec<AcceptedToken>)
    requires
        call_ensures(list_accepted_tokens, (vault,), list),
        forall|i: int|
            0 <= i < vault@.accepted_tokens.len() ==> vault@.token_decimals.contains_key(
                #[trigger] vault@.accepted_tokens[i],
            ),
    ensures
        list@.len() == vault@.accepted_tokens.len(),
        forall|i: int|
            0 <= i < list@.len() ==> {
                &&& (#[trigger] list@[i]).token == vault@.accepted_tokens[i]
                &&& list@[i].decimals == vault@.token_decimals[list@[i].token]
            },
{
    lemma_listed(vault@, vault@.accepted_tokens);
}

proof fn lemma_listed(v: VaultState, tokens: Seq<Address>)
    requires
        forall|i: int|
            0 <= i < tokens.len() ==> v.token_decimals.contains_key(#[trigger] tokens[i]),
    ensures
        ({
            let list = tokens.filter_map(|t: Address| listed(v, t));
            &&& list.len() == tokens.len()
            &&& forall|i: int|
                0 <= i < list.len() ==> {
                    &&& (#[trigger] list[i]).token == tokens[i]
                    &&& list[i].decimals == v.token_decimals[tokens[i]]
                }
        }),
    decreases tokens.len(),
{
    reveal(Seq::filter_map);
    if tokens.len() > 0 {
        let shorter = tokens.drop_last();
        assert forall|i: int| 0 <= i < shorter.len() implies v.token_decimals.contains_key(
            #[trigger] shorter[i],
        ) by {
            assert(shorter[i] == tokens[i]);
        }
        lemma_listed(v, shorter);
    }
}

/// The settings that are stored are what is read. A grace period or a fee that was never set is
/// zero; without the others the reader is told what is missing.
pub proof fn stored_settings_are_read(
    vault: &Vault,
    token_asked_for: &Address,
    min_topup: Result<i128, Error>,
    grace_period: Result<u64, Error>,
    token: Result<Address, Error>,
    decimals: Result<u32, Error>,
    accepted: bool,
    admin: Result<Address, Error>,
    required_admin: Result<Address, Error>,
    fee_bps: u32,
    treasury: Option<Address>,
)
    requires
        call_ensures(get_min_topup, (vault,), min_topup),
        call_ensures(get_grace_period, (vault,), grace_period),
        call_ensures(get_token, (vault,), token),
        call_ensures(get_token_decimals, (vault, token_asked_for), decimals),
        call_ensures(is_token_accepted, (vault, token_asked_for), accepted),
        call_ensures(do_get_admin, (vault,), admin),
        call_ensures(require_admin, (vault,), required_admin),
        call_ensures(get_protocol_fee_bps, (vault,), fee_bps),
        call_ensures(get_treasury, (vault,), treasury),
    ensures
        min_topup == (if vault@.min_topup is Some {
            Ok::<i128, Error>(vault@.min_topup->0)
        } else {
            Err(Error::NotInitialized)
        }),
        grace_period == Ok::<u64, Error>(
            if vault@.grace_period is Some {
                vault@.grace_period->0
            } else {
                0
            },
        ),
        token == (if vault@.token is Some {
            Ok::<Address, Error>(vault@.token->0)
        } else {
            Err(Error::NotFound)
        }),
        decimals == (if vault@.token_decimals.contains_key(*token_asked_for) {
            Ok::<u32, Error>(vault@.token_decimals[*token_asked_for])
        } else {
            Err(Error::NotFound)
        }),
        accepted == vault@.token_decimals.contains_key(*token_asked_for),
        admin == (if vault@.admin is Some {
            Ok::<Address, Error>(vault@.admin->0)
        } else {
            Err(Error::NotInitialized)
        }),
        required_admin == admin,
        fee_bps == (if vault@.fee_bps is Some {
            vault@.fee_bps->0
        } else {
            0
        }),
        treasury == vault@.treasury,
{
}

/// The admin can hand administration over to anyone but itself and the vault, and this is
/// announced.
pub proof fn administration_is_handed_over(
    vault: &mut Vault,
    admin: Address,
    new_admin: Address,
    result: Result<(), Error>,
)
    requires
        call_ensures(do_rotate_admin, (vault, admin, new_admin), result),
    ensures
        result == (if as_admin(old(vault)@, admin) is Err {
            as_admin(old(vault)@, admin)
        } else if new_admin == admin {
            Err(Error::SelfRotation)
        } else if new_admin == old(vault)@.contract {
            Err(Error::InvalidNewAdmin)
        } else {
            Ok(())
        }),
        result is Err ==> final(vault)@ == only_asked(old(vault)@, admin),
        result is Ok ==> final(vault)@ == (VaultState {
            admin: Some(new_admin),
            actions: old(vault)@.actions.push(Action::RequireAuth(admin)).push(
                Action::Publish(
                    Event::AdminRotated(
                        AdminRotatedEvent {
                            old_admin: admin,
                            new_admin,
                            timestamp: old(vault)@.timestamp,
                        },
                    ),
                ),
            ),
            ..old(vault)@
        }),
{
}

/// What stands against a recovery, whatever the vault holds.
pub open spec fn recovery_objection(
    v: VaultState,
    admin: Address,
    amount: i128,
    id: Seq<char>,
) -> Option<Error> {
    if v.admin is None {
        Some(Error::NotInitialized)
    } else if v.admin->0 != admin {
        Some(Error::Unauthorized)
    } else if amount <= 0 {
        Some(Error::InvalidRecoveryAmount)
    } else if v.recoveries.contains(id) {
        Some(Error::Replay)
    } else {
        None
    }
}

/// What can be told about a recovery without a look at what the vault holds is told beforehand.
pub proof fn a_recovery_is_checked_beforehand(
    vault: &Vault,
    admin: &Address,
    amount: i128,
    id: &String,
    result: Result<(), Error>,
)
    requires
        call_ensures(check_recovery, (vault, admin, amount, id), result),
    ensures
        result is Ok <==> recovery_objection(vault@, *admin, amount, id@) is None,
        result is Err ==> result == Err::<(), Error>(
            recovery_objection(vault@, *admin, amount, id@)->0,
        ),
{
}

/// The admin can recover any positive amount that the holdings exceed the accounts by, once
/// for each ID. It is announced, and the tokens move from the vault to the recipient. Nothing
/// that belongs to someone is different.
pub proof fn a_recovery_takes_what_belongs_to_no_one(
    vault: &mut Vault,
    admin: Address,
    token: Address,
    recipient: Address,
    amount: i128,
    id: String,
    reason: RecoveryReason,
    held: i128,
    result: Result<(), Error>,
)
    requires
        call_ensures(
            do_recover_stranded_funds,
            (vault, admin, token, recipient, amount, id, reason, held),
            result,
        ),
    ensures
        ({
            let v = old(vault)@;
            let objection = recovery_objection(v, admin, amount, id@);
            let surplus = held - amount_at(v.total_accounted, token);
            result == (if objection is Some {
                Err::<(), Error>(objection->0)
            } else if !in_range(surplus) {
                Err(Error::Underflow)
            } else if amount > surplus {
                Err(Error::InsufficientBalance)
            } else {
                Ok(())
            })
        }),
        result is Err ==> final(vault)@ == only_asked(old(vault)@, admin),
        result is Ok ==> final(vault)@ == (VaultState {
            recoveries: old(vault)@.recoveries.insert(id@),
            actions: old(vault)@.actions.push(Action::RequireAuth(admin)).push(
                Action::Publish(
                    Event::Recovery(
                        RecoveryEvent {
                            admin,
                            recipient,
                            token,
                            amount,
                            reason,
                            timestamp: old(vault)@.timestamp,
                        },
                    ),
                ),
            ).push(
                Action::Transfer(
                    Transfer { token, from: old(vault)@.contract, to: recipient, amount },
                ),
            ),
            ..old(vault)@
        }),
{
}

/// The admin sets a protocol fee of at most the whole charge and the treasury that collects it,
/// and this is announced.
pub proof fn the_fee_is_set_as_asked_for(
    vault: &mut Vault,
    admin: Address,
    treasury: Address,
    fee_bps: u32,
    result: Result<(), Error>,
)
    requires
        call_ensures(set_protocol_fee, (vault, admin, treasury, fee_bps), result),
    ensures
        result == (if old(vault)@.admin is None {
            Err::<(), Error>(Error::NotInitialized)
        } else if old(vault)@.admin->0 != admin {
            Err(Error::Forbidden)
        } else if fee_bps > 10_000 {
            Err(Error::InvalidInput)
        } else {
            Ok(())
        }),
        result is Err ==> final(vault)@ == only_asked(old(vault)@, admin),
        result is Ok ==> final(vault)@ == (VaultState {
            fee_bps: Some(fee_bps),
            treasury: Some(treasury),
            actions: old(vault)@.actions.push(Action::RequireAuth(admin)).push(
                Action::Publish(
                    Event::ProtocolFeeConfigured(
                        ProtocolFeeConfiguredEvent {
                            admin,
                            treasury,
                            fee_bps,
                            timestamp: old(vault)@.timestamp,
                        },
                    ),
                ),
            ),
            ..old(vault)@
        }),
{
}

/// A charge is reported as what it was: a success has code zero, and anything else the code of
/// what went wrong.
pub proof fn a_charge_is_reported_as_what_it_was(
    charged: &Result<ChargeExecutionResult, Error>,
    report: BatchChargeResult,
)
    requires
        call_ensures(batch_charge_result, (charged,), report),
    ensures
        report.success == (*charged == Ok::<ChargeExecutionResult, Error>(
            ChargeExecutionResult::Charged,
        )),
        report.success ==> report.error_code == 0,
        *charged == Ok::<ChargeExecutionResult, Error>(ChargeExecutionResult::InsufficientBalance)
            ==> report.error_code == Error::InsufficientBalance.code(),
        *charged is Err ==> report.error_code == charged->Err_0.code(),
{
}

/// Whether a batch went through `vaults`, with these `outcomes`, as the subscriptions `ids`
/// were charged one after the other, and whether the outcomes are what is reported.
pub open spec fn charged_in_turn<
    F: Fn(Vault, u32, u64) -> (Vault, Result<ChargeExecutionResult, Error>),
>(
    charge_one: F,
    now: u64,
    ids: Seq<u32>,
    vaults: Seq<Vault>,
    outcomes: Seq<Result<ChargeExecutionResult, Error>>,
    reports: Seq<BatchChargeResult>,
) -> bool {
    &&& vaults.len() == ids.len() + 1
    &&& outcomes.len() == ids.len()
    &&& reports.len() == ids.len()
    &&& forall|i: int|
        0 <= i < ids.len() ==> {
            &&& call_ensures(
                charge_one,
                (vaults[i], ids[i], now),
                (vaults[i + 1], #[trigger] outcomes[i]),
            )
            &&& reports[i].success == (outcomes[i] == Ok::<ChargeExecutionResult, Error>(
                ChargeExecutionResult::Charged,
            ))
            &&& reports[i].error_code == match outcomes[i] {
                Ok(ChargeExecutionResult::Charged) => 0,
                Ok(ChargeExecutionResult::InsufficientBalance) => {
                    Error::InsufficientBalance.code()
                },
                Err(e) => e.code(),
            }
        }
}

/// A batch is refused only where there is no admin. Otherwise the admin is asked for
/// authorization, and then every subscription of the batch is charged, each where the one
/// before it left the vault, whatever came of that one, and is reported in its place.
pub proof fn a_batch_charges_one_after_the_other<
    F: Fn(Vault, u32, u64) -> (Vault, Result<ChargeExecutionResult, Error>),
>(
    vault: Vault,
    ids: &Vec<u32>,
    charge_one: F,
    result: (Vault, Result<Vec<BatchChargeResult>, Error>),
)
    requires
        call_ensures(do_batch_charge::<F>, (vault, ids, charge_one), result),
    ensures
        vault@.admin is None ==> {
            &&& result.1 == Err::<Vec<BatchChargeResult>, Error>(Error::NotInitialized)
            &&& result.0@ == vault@
        },
        vault@.admin is Some ==> result.1 is Ok,
        vault@.admin is Some ==> exists|
            vaults: Seq<Vault>,
            outcomes: Seq<Result<ChargeExecutionResult, Error>>,
        | {
            &&& #[trigger] charged_in_turn(
                charge_one,
                vault@.timestamp,
                ids@,
                vaults,
                outcomes,
                result.1->Ok_0@,
            )
            &&& vaults.first()@ == only_asked(vault@, vault@.admin->0)
            &&& vaults.last() == result.0
        },
{
    if vault@.admin is Some {
        let now = vault@.timestamp;
        let list = result.1->Ok_0@;
        let vaults = choose|vaults: Seq<Vault>|
            {
                &&& #[trigger] batch_run(charge_one, vaults, ids@, now, list)
                &&& vaults.first()@ == vault@.demand(vault@.admin->0)
                &&& vaults.last() == result.0
            };
        let outcomes = Seq::new(
            ids@.len(),
            |i: int|
                choose|charged: Result<ChargeExecutionResult, Error>|
                    #[trigger] call_ensures(
                        charge_one,
                        (vaults[i], ids@[i], now),
                        (vaults[i + 1], charged),
                    ) && list[i] == batch_report(charged),
        );
        assert forall|i: int| 0 <= i < ids@.len() implies call_ensures(
            charge_one,
            (vaults[i], ids@[i], now),
            (vaults[i + 1], #[trigger] outcomes[i]),
        ) && list[i] == batch_report(outcomes[i]) by {
            assert(charges(charge_one, vaults[i], ids@[i], now, vaults[i + 1], list[i]));
        }
        assert(charged_in_turn(charge_one, now, ids@, vaults, outcomes, list));
    }
}

} // verus!
