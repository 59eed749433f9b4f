//! Administration: initialization, configuration, accepted tokens, batch charges,
//! recovery of stranded funds and the protocol fee.

use vstd::prelude::*;

use crate::accounting::get_total_accounted;
use crate::events::Event;
use crate::safe_math::fits;
use crate::types::{
    AcceptedToken, Address, AdminRotatedEvent, BatchChargeResult, ChargeExecutionResult,
    ContractInitializedEvent, Error, ProtocolFeeConfiguredEvent, RecoveryEvent, RecoveryReason,
};
use crate::vault::{lookup, Vault, VaultState};

verus! {

/// The largest protocol fee: all of the charge, in basis points.
pub const MAX_FEE_BPS: u32 = 10_000;

/// What an operation returns when `refusal` says why it is refused, if it is.
pub open spec fn outcome(refusal: Option<Error>) -> Result<(), Error> {
    match refusal {
        Some(e) => Err(e),
        None => Ok(()),
    }
}

impl VaultState {
    /// Whether `token` is accepted for settlement.
    pub open spec fn accepts(self, token: Address) -> bool {
        self.token_decimals.contains_key(token)
    }

    /// Why `account` may not act as the admin.
    pub open spec fn admin_refusal(self, account: Address) -> Option<Error> {
        match self.admin {
            None => Some(Error::NotInitialized),
            Some(admin) => if account != admin {
                Some(Error::Unauthorized)
            } else {
                None
            },
        }
    }
}

/// Why [`do_init`] is refused.
pub open spec fn init_refusal(v: VaultState, min_topup: i128) -> Option<Error> {
    if v.token is Some || v.admin is Some {
        Some(Error::AlreadyInitialized)
    } else if min_topup < 0 {
        Some(Error::InvalidAmount)
    } else {
        None
    }
}

/// The vault after [`do_init`].
pub open spec fn init_after(
    v: VaultState,
    token: Address,
    token_decimals: u32,
    admin: Address,
    min_topup: i128,
    grace_period: u64,
) -> VaultState {
    if init_refusal(v, min_topup) is Some {
        v
    } else {
        VaultState {
            token: Some(token),
            token_decimals: v.token_decimals.insert(token, token_decimals),
            accepted_tokens: seq![token],
            admin: Some(admin),
            min_topup: Some(min_topup),
            grace_period: Some(grace_period),
            schema_version: Some(1),
            ..v
        }.publish(
            Event::Initialized(
                ContractInitializedEvent {
                    token,
                    admin,
                    min_topup,
                    grace_period,
                    timestamp: v.timestamp,
                },
            ),
        )
    }
}

/// Sets the vault up. This happens once.
pub fn do_init(
    vault: &mut Vault,
    token: Address,
    token_decimals: u32,
    admin: Address,
    min_topup: i128,
    grace_period: u64,
) -> (result: Result<(), Error>)
    ensures
        result == outcome(init_refusal(old(vault)@, min_topup)),
        final(vault)@ == init_after(
            old(vault)@,
            token,
            token_decimals,
            admin,
            min_topup,
            grace_period,
        ),
{
    if vault.token.is_some() || vault.admin.is_some() {
        return Err(Error::AlreadyInitialized);
    }
    if min_topup < 0 {
        return Err(Error::InvalidAmount);
    }
    vault.token = Some(token);
    vault.token_decimals.set(token, token_decimals);
    let mut tokens: Vec<Address> = Vec::new();
    tokens.push(token);
    assert(tokens@ =~= seq![token]);
    vault.accepted_tokens = tokens;
    vault.admin = Some(admin);
    vault.min_topup = Some(min_topup);
    vault.grace_period = Some(grace_period);
    vault.schema_version = Some(1);
    let timestamp: u64 = vault.timestamp;
    vault.publish(
        Event::Initialized(
            ContractInitializedEvent { token, admin, min_topup, grace_period, timestamp },
        ),
    );
    Ok(())
}

/// The admin's address.
pub fn require_admin(vault: &Vault) -> (admin: Result<Address, Error>)
    ensures
        admin == (match vault@.admin {
            Some(a) => Ok::<Address, Error>(a),
            None => Err(Error::NotInitialized),
        }),
{
    match vault.admin {
        Some(admin) => Ok(admin),
        None => Err(Error::NotInitialized),
    }
}

/// Demands the authorization of `admin` and refuses anyone but the stored admin.
pub fn require_admin_auth(vault: &mut Vault, admin: &Address) -> (result: Result<(), Error>)
    ensures
        result == outcome(old(vault)@.admin_refusal(*admin)),
        final(vault)@ == old(vault)@.demand(*admin),
{
    vault.require_auth(*admin);
    match require_admin(vault) {
        Ok(stored_admin) => {
            if *admin != stored_admin {
                return Err(Error::Unauthorized);
            }
            Ok(())
        },
        Err(e) => Err(e),
    }
}

/// Demands the authorization of the stored admin.
pub fn require_stored_admin_auth(vault: &mut Vault) -> (admin: Result<Address, Error>)
    ensures
        match old(vault)@.admin {
            Some(a) => admin == Ok::<Address, Error>(a) && final(vault)@ == old(vault)@.demand(a),
            None => {
                &&& admin == Err::<Address, Error>(Error::NotInitialized)
                &&& final(vault)@ == old(vault)@
            },
        },
{
    match require_admin(vault) {
        Ok(stored_admin) => {
            vault.require_auth(stored_admin);
            Ok(stored_admin)
        },
        Err(e) => Err(e),
    }
}

/// The vault after [`do_set_min_topup`].
pub open spec fn set_min_topup_after(v: VaultState, admin: Address, min_topup: i128) -> VaultState {
    if v.admin_refusal(admin) is Some {
        v.demand(admin)
    } else {
        VaultState { min_topup: Some(min_topup), ..v.demand(admin) }.publish(
            Event::MinTopupUpdated(min_topup),
        )
    }
}

/// Changes the smallest deposit. Admin only.
pub fn do_set_min_topup(
    vault: &mut Vault,
    admin: Address,
    min_topup: i128,
) -> (result: Result<(), Error>)
    ensures
        result == outcome(old(vault)@.admin_refusal(admin)),
        final(vault)@ == set_min_topup_after(old(vault)@, admin, min_topup),
{
    match require_admin_auth(vault, &admin) {
        Ok(()) => {},
        Err(e) => return Err(e),
    }
    vault.min_topup = Some(min_topup);
    vault.publish(Event::MinTopupUpdated(min_topup));
    Ok(())
}

/// The smallest deposit.
pub fn get_min_topup(vault: &Vault) -> (min_topup: Result<i128, Error>)
    ensures
        min_topup == (match vault@.min_topup {
            Some(m) => Ok::<i128, Error>(m),
            None => Err(Error::NotInitialized),
        }),
{
    match vault.min_topup {
        Some(min_topup) => Ok(min_topup),
        None => Err(Error::NotInitialized),
    }
}

/// The vault after [`do_set_grace_period`].
pub open spec fn set_grace_period_after(
    v: VaultState,
    admin: Address,
    grace_period: u64,
) -> VaultState {
    if v.admin_refusal(admin) is Some {
        v.demand(admin)
    } else {
        VaultState { grace_period: Some(grace_period), ..v.demand(admin) }
    }
}

/// Changes the grace period. Admin only.
pub fn do_set_grace_period(
    vault: &mut Vault,
    admin: Address,
    grace_period: u64,
) -> (result: Result<(), Error>)
    ensures
        result == outcome(old(vault)@.admin_refusal(admin)),
        final(vault)@ == set_grace_period_after(old(vault)@, admin, grace_period),
{
    match require_admin_auth(vault, &admin) {
        Ok(()) => {},
        Err(e) => return Err(e),
    }
    vault.grace_period = Some(grace_period);
    Ok(())
}

/// The grace period, zero if none was set.
pub fn get_grace_period(vault: &Vault) -> (grace_period: Result<u64, Error>)
    ensures
        grace_period == Ok::<u64, Error>(
            match vault@.grace_period {
                Some(g) => g,
                None => 0,
            },
        ),
{
    Ok(vault.grace_period.unwrap_or(0))
}

/// The default settlement token.
pub fn get_token(vault: &Vault) -> (token: Result<Address, Error>)
    ensures
        token == (match vault@.token {
            Some(t) => Ok::<Address, Error>(t),
            None => Err(Error::NotFound),
        }),
{
    match vault.token {
        Some(token) => Ok(token),
        None => Err(Error::NotFound),
    }
}

/// The decimals of an accepted token.
pub fn get_token_decimals(vault: &Vault, token: &Address) -> (decimals: Result<u32, Error>)
    ensures
        decimals == (match lookup(vault@.token_decimals, *token) {
            Some(d) => Ok::<u32, Error>(d),
            None => Err(Error::NotFound),
        }),
{
    match vault.token_decimals.copied(*token) {
        Some(decimals) => Ok(decimals),
        None => Err(Error::NotFound),
    }
}

/// Whether `token` is accepted for settlement.
pub fn is_token_accepted(vault: &Vault, token: &Address) -> (accepted: bool)
    ensures
        accepted == vault@.accepts(*token),
{
    vault.token_decimals.has(*token)
}

/// The vault after [`add_accepted_token`].
pub open spec fn add_token_after(
    v: VaultState,
    admin: Address,
    token: Address,
    decimals: u32,
) -> VaultState {
    if v.admin_refusal(admin) is Some {
        v.demand(admin)
    } else {
        VaultState {
            accepted_tokens: if v.accepts(token) {
                v.accepted_tokens
            } else {
                v.accepted_tokens.push(token)
            },
            token_decimals: v.token_decimals.insert(token, decimals),
            ..v.demand(admin)
        }
    }
}

/// Accepts `token` for settlement, or changes its decimals. Admin only.
pub fn add_accepted_token(
    vault: &mut Vault,
    admin: Address,
    token: Address,
    decimals: u32,
) -> (result: Result<(), Error>)
    ensures
        result == outcome(old(vault)@.admin_refusal(admin)),
        final(vault)@ == add_token_after(old(vault)@, admin, token, decimals),
{
    match require_admin_auth(vault, &admin) {
        Ok(()) => {},
        Err(e) => return Err(e),
    }
    if !vault.token_decimals.has(token) {
        vault.accepted_tokens.push(token);
    }
    vault.token_decimals.set(token, decimals);
    Ok(())
}

/// Why [`remove_accepted_token`] is refused.
pub open spec fn remove_token_refusal(
    v: VaultState,
    admin: Address,
    token: Address,
) -> Option<Error> {
    match v.admin_refusal(admin) {
        Some(e) => Some(e),
        None => match v.token {
            None => Some(Error::NotFound),
            Some(default_token) => if token == default_token {
                Some(Error::InvalidInput)
            } else {
                None
            },
        },
    }
}

/// The test for tokens other than `token`.
pub open spec fn other_than(token: Address) -> spec_fn(Address) -> bool {
    |t: Address| t != token
}

/// `tokens` without `token`.
pub open spec fn without(tokens: Seq<Address>, token: Address) -> Seq<Address> {
    tokens.filter(other_than(token))
}

/// The tokens of a list that are not `token`, in order.
fn others(tokens: &Vec<Address>, token: Address) -> (next: Vec<Address>)
    ensures
        next@ == without(tokens@, token),
{
    let mut next: Vec<Address> = Vec::new();
    let mut i: usize = 0;
    let ghost kept = other_than(token);
    assert(tokens@.take(0).filter(kept) =~= Seq::<Address>::empty()) by {
        reveal(Seq::filter);
    }
    while i < tokens.len()
        invariant
            i <= tokens@.len(),
            kept == other_than(token),
            next@ == tokens@.take(i as int).filter(kept),
        decreases tokens@.len() - i,
    {
        let t = tokens[i];
        proof {
            assert(tokens@.take(i as int + 1) =~= tokens@.take(i as int).push(t));
            tokens@.take(i as int).lemma_filter_push(t, kept);
        }
        if t != token {
            next.push(t);
        }
        i = i + 1;
    }
    assert(tokens@.take(i as int) =~= tokens@);
    next
}

/// The vault after [`remove_accepted_token`].
pub open spec fn remove_token_after(v: VaultState, admin: Address, token: Address) -> VaultState {
    if remove_token_refusal(v, admin, token) is Some {
        v.demand(admin)
    } else {
        VaultState {
            accepted_tokens: without(v.accepted_tokens, token),
            token_decimals: v.token_decimals.remove(token),
            ..v.demand(admin)
        }
    }
}

/// Stops accepting `token`. The default token cannot be removed. Admin only.
pub fn remove_accepted_token(
    vault: &mut Vault,
    admin: Address,
    token: Address,
) -> (result: Result<(), Error>)
    ensures
        result == outcome(remove_token_refusal(old(vault)@, admin, token)),
        final(vault)@ == remove_token_after(old(vault)@, admin, token),
{
    match require_admin_auth(vault, &admin) {
        Ok(()) => {},
        Err(e) => return Err(e),
    }
    let default_token = match get_token(vault) {
        Ok(default_token) => default_token,
        Err(e) => return Err(e),
    };
    if token == default_token {
        return Err(Error::InvalidInput);
    }
    vault.token_decimals.remove(token);
    let next = others(&vault.accepted_tokens, token);
    vault.accepted_tokens = next;
    Ok(())
}

/// What is listed for `token`: nothing once it is no longer accepted.
pub open spec fn listed(v: VaultState, token: Address) -> Option<AcceptedToken> {
    match lookup(v.token_decimals, token) {
        Some(decimals) => Some(AcceptedToken { token, decimals }),
        None => None,
    }
}

/// The accepted tokens with their decimals, in the order in which they were accepted.
pub fn list_accepted_tokens(vault: &Vault) -> (list: Vec<AcceptedToken>)
    ensures
        list@ == vault@.accepted_tokens.filter_map(|t: Address| listed(vault@, t)),
{
    let ghost select = |t: Address| listed(vault@, t);
    let ghost tokens = vault.accepted_tokens@;
    let mut out: Vec<AcceptedToken> = Vec::new();
    let mut i: usize = 0;
    assert(tokens.take(0).filter_map(select) =~= Seq::<AcceptedToken>::empty());
    while i < vault.accepted_tokens.len()
        invariant
            i <= tokens.len(),
            vault.accepted_tokens@ == tokens,
            select == (|t: Address| listed(vault@, t)),
            out@ == tokens.take(i as int).filter_map(select),
        decreases tokens.len() - i,
    {
        proof {
            tokens.lemma_filter_map_take_succ(select, i as int);
        }
        let token = vault.accepted_tokens[i];
        if let Some(decimals) = vault.token_decimals.copied(token) {
            out.push(AcceptedToken { token, decimals });
        }
        i = i + 1;
        assert(out@ =~= tokens.take(i as int).filter_map(select));
    }
    assert(tokens.take(i as int) =~= tokens);
    out
}

/// How the outcome of one charge is reported in a batch.
pub open spec fn batch_report(charged: Result<ChargeExecutionResult, Error>) -> BatchChargeResult {
    match charged {
        Ok(ChargeExecutionResult::Charged) => BatchChargeResult { success: true, error_code: 0 },
        Ok(ChargeExecutionResult::InsufficientBalance) => BatchChargeResult {
            success: false,
            error_code: Error::InsufficientBalance.code(),
        },
        Err(e) => BatchChargeResult { success: false, error_code: e.code() },
    }
}

/// Reports the outcome of one charge.
pub fn batch_charge_result(
    charged: &Result<ChargeExecutionResult, Error>,
) -> (report: BatchChargeResult)
    ensures
        report == batch_report(*charged),
{
    match charged {
        Ok(ChargeExecutionResult::Charged) => BatchChargeResult { success: true, error_code: 0 },
        Ok(ChargeExecutionResult::InsufficientBalance) => BatchChargeResult {
            success: false,
            error_code: Error::InsufficientBalance.to_code(),
        },
        Err(e) => BatchChargeResult { success: false, error_code: e.to_code() },
    }
}

/// One step of a batch: charging subscription `id` at time `now` takes the vault from
/// `before` to `after` and is reported as `report`.
pub open spec fn charges<F: Fn(Vault, u32, u64) -> (Vault, Result<ChargeExecutionResult, Error>)>(
    charge_one: F,
    before: Vault,
    id: u32,
    now: u64,
    after: Vault,
    report: BatchChargeResult,
) -> bool {
    exists|charged: Result<ChargeExecutionResult, Error>|
        #[trigger] call_ensures(charge_one, (before, id, now), (after, charged)) && report
            == batch_report(charged)
}

/// A whole batch: the vault goes through `vaults`, from the first to the last, as the
/// subscriptions `ids` are charged one after the other.
pub open spec fn batch_run<F: Fn(Vault, u32, u64) -> (Vault, Result<ChargeExecutionResult, Error>)>(
    charge_one: F,
    vaults: Seq<Vault>,
    ids: Seq<u32>,
    now: u64,
    reports: Seq<BatchChargeResult>,
) -> bool {
    &&& vaults.len() == ids.len() + 1
    &&& reports.len() == ids.len()
    &&& forall|i: int|
        0 <= i < ids.len() ==> charges(
            charge_one,
            vaults[i],
            ids[i],
            now,
            vaults[i + 1],
            #[trigger] reports[i],
        )
}

/// Whether charging `ids` one after the other leads from a vault in state `start` to the
/// vault `end`, with the given reports.
pub open spec fn batch_leads<
    F: Fn(Vault, u32, u64) -> (Vault, Result<ChargeExecutionResult, Error>),
>(
    charge_one: F,
    start: VaultState,
    ids: Seq<u32>,
    now: u64,
    reports: Seq<BatchChargeResult>,
    end: Vault,
) -> bool {
    exists|vaults: Seq<Vault>|
        {
            &&& #[trigger] batch_run(charge_one, vaults, ids, now, reports)
            &&& vaults.first()@ == start
            &&& vaults.last() == end
        }
}

/// Charges the subscriptions one after the other, in the given order, and reports the
/// outcome of each. A refused charge does not stop the batch. Admin only.
///
/// `charge_one` charges one subscription of a vault at the given time.
pub fn do_batch_charge<F: Fn(Vault, u32, u64) -> (Vault, Result<ChargeExecutionResult, Error>)>(
    vault: Vault,
    subscription_ids: &Vec<u32>,
    charge_one: F,
) -> (result: (Vault, Result<Vec<BatchChargeResult>, Error>))
    requires
        forall|v: Vault, id: u32| call_requires(charge_one, (v, id, vault@.timestamp)),
    ensures
        match vault@.admin {
            None => {
                &&& result.0@ == vault@
                &&& result.1 == Err::<Vec<BatchChargeResult>, Error>(Error::NotInitialized)
            },
            Some(admin) => {
                &&& result.1 matches Ok(reports)
                &&& batch_leads(
                    charge_one,
                    vault@.demand(admin),
                    subscription_ids@,
                    vault@.timestamp,
                    reports@,
                    result.0,
                )
            },
        },
{
    let mut current = vault;
    match require_stored_admin_auth(&mut current) {
        Ok(_) => {},
        Err(e) => return (current, Err(e)),
    }
    let now: u64 = current.timestamp;
    let mut results: Vec<BatchChargeResult> = Vec::new();
    let ghost mut vaults: Seq<Vault> = seq![current];
    let mut i: usize = 0;
    while i < subscription_ids.len()
        invariant
            i <= subscription_ids@.len(),
            now == vault@.timestamp,
            forall|v: Vault, id: u32| call_requires(charge_one, (v, id, now)),
            batch_run(charge_one, vaults, subscription_ids@.take(i as int), now, results@),
            vault@.admin is Some,
            vaults.first()@ == vault@.demand(vault@.admin->0),
            vaults.last() == current,
        decreases subscription_ids@.len() - i,
    {
        let id: u32 = subscription_ids[i];
        let ghost before = current;
        let ghost run = results@;
        let (next, charged) = charge_one(current, id, now);
        current = next;
        let report = batch_charge_result(&charged);
        results.push(report);
        proof {
            let longer = vaults.push(current);
            let ids = subscription_ids@.take(i as int + 1);
            assert(charges(charge_one, before, id, now, current, report));
            assert forall|j: int| 0 <= j < ids.len() implies charges(
                charge_one,
                longer[j],
                ids[j],
                now,
                longer[j + 1],
                #[trigger] results@[j],
            ) by {
                if j < i {
                    assert(results@[j] == run[j]);
                }
            }
            vaults = longer;
        }
        i = i + 1;
    }
    proof {
        assert(subscription_ids@.take(i as int) =~= subscription_ids@);
        assert(batch_run(charge_one, vaults, subscription_ids@, now, results@));
        assert(batch_leads(
            charge_one,
            vault@.demand(vault@.admin->0),
            subscription_ids@,
            now,
            results@,
            current,
        ));
    }
    (current, Ok(results))
}

/// The admin's address.
pub fn do_get_admin(vault: &Vault) -> (admin: Result<Address, Error>)
    ensures
        admin == (match vault@.admin {
            Some(a) => Ok::<Address, Error>(a),
            None => Err(Error::NotInitialized),
        }),
{
    match vault.admin {
        Some(admin) => Ok(admin),
        None => Err(Error::NotInitialized),
    }
}

/// Why [`do_rotate_admin`] is refused.
pub open spec fn rotate_refusal(
    v: VaultState,
    current_admin: Address,
    new_admin: Address,
) -> Option<Error> {
    match v.admin_refusal(current_admin) {
        Some(e) => Some(e),
        None => if new_admin == current_admin {
            Some(Error::SelfRotation)
        } else if new_admin == v.contract {
            Some(Error::InvalidNewAdmin)
        } else {
            None
        },
    }
}

/// The vault after [`do_rotate_admin`].
pub open spec fn rotate_after(
    v: VaultState,
    current_admin: Address,
    new_admin: Address,
) -> VaultState {
    if rotate_refusal(v, current_admin, new_admin) is Some {
        v.demand(current_admin)
    } else {
        VaultState { admin: Some(new_admin), ..v.demand(current_admin) }.publish(
            Event::AdminRotated(
                AdminRotatedEvent {
                    old_admin: current_admin,
                    new_admin,
                    timestamp: v.timestamp,
                },
            ),
        )
    }
}

/// Hands administration over to `new_admin`.
///
/// The admin cannot hand over to itself, nor to the vault, which cannot sign and would
/// lock administration for good.
pub fn do_rotate_admin(
    vault: &mut Vault,
    current_admin: Address,
    new_admin: Address,
) -> (result: Result<(), Error>)
    ensures
        result == outcome(rotate_refusal(old(vault)@, current_admin, new_admin)),
        final(vault)@ == rotate_after(old(vault)@, current_admin, new_admin),
{
    match require_admin_auth(vault, &current_admin) {
        Ok(()) => {},
        Err(e) => return Err(e),
    }
    if new_admin == current_admin {
        return Err(Error::SelfRotation);
    }
    if new_admin == vault.contract {
        return Err(Error::InvalidNewAdmin);
    }
    vault.admin = Some(new_admin);
    let timestamp: u64 = vault.timestamp;
    vault.publish(
        Event::AdminRotated(AdminRotatedEvent { old_admin: current_admin, new_admin, timestamp }),
    );
    Ok(())
}

/// Why a recovery is refused whatever the vault holds.
pub open spec fn recover_check(
    v: VaultState,
    admin: Address,
    amount: i128,
    recovery_id: Seq<char>,
) -> Option<Error> {
    match v.admin_refusal(admin) {
        Some(e) => Some(e),
        None => if amount <= 0 {
            Some(Error::InvalidRecoveryAmount)
        } else if v.recoveries.contains(recovery_id) {
            Some(Error::Replay)
        } else {
            None
        },
    }
}

/// Why [`do_recover_stranded_funds`] is refused.
pub open spec fn recover_refusal(
    v: VaultState,
    admin: Address,
    token: Address,
    amount: i128,
    recovery_id: Seq<char>,
    contract_balance: i128,
) -> Option<Error> {
    match recover_check(v, admin, amount, recovery_id) {
        Some(e) => Some(e),
        None => if !fits(contract_balance - v.accounted(token)) {
            Some(Error::Underflow)
        } else if amount > contract_balance - v.accounted(token) {
            Some(Error::InsufficientBalance)
        } else {
            None
        },
    }
}

/// The vault after [`do_recover_stranded_funds`].
pub open spec fn recover_after(
    v: VaultState,
    admin: Address,
    token: Address,
    recipient: Address,
    amount: i128,
    recovery_id: Seq<char>,
    reason: RecoveryReason,
    contract_balance: i128,
) -> VaultState {
    if recover_refusal(v, admin, token, amount, recovery_id, contract_balance) is Some {
        v.demand(admin)
    } else {
        VaultState { recoveries: v.recoveries.insert(recovery_id), ..v.demand(admin) }.publish(
            Event::Recovery(
                RecoveryEvent {
                    admin,
                    recipient,
                    token,
                    amount,
                    reason,
                    timestamp: v.timestamp,
                },
            ),
        ).transfer(token, v.contract, recipient, amount)
    }
}

/// Whether a recovery has been executed.
fn is_recovered(vault: &Vault, recovery_id: &String) -> (recovered: bool)
    ensures
        recovered == vault@.recoveries.contains(recovery_id@),
{
    let ghost ids = vault.recoveries@.map_values(|text: String| text@);
    let mut i: usize = 0;
    while i < vault.recoveries.len()
        invariant
            i <= vault.recoveries@.len(),
            ids == vault.recoveries@.map_values(|text: String| text@),
            forall|j: int| 0 <= j < i ==> #[trigger] ids[j] != recovery_id@,
        decreases vault.recoveries@.len() - i,
    {
        if vault.recoveries[i] == *recovery_id {
            assert(ids[i as int] == recovery_id@);
            return true;
        }
        i = i + 1;
    }
    false
}

/// Refuses a recovery that needs no look at what the vault holds.
///
/// Only where it passes does the token contract have to be asked for the vault's balance.
pub fn check_recovery(
    vault: &Vault,
    admin: &Address,
    amount: i128,
    recovery_id: &String,
) -> (result: Result<(), Error>)
    ensures
        result == outcome(recover_check(vault@, *admin, amount, recovery_id@)),
{
    let stored_admin = match require_admin(vault) {
        Ok(stored_admin) => stored_admin,
        Err(e) => return Err(e),
    };
    if *admin != stored_admin {
        return Err(Error::Unauthorized);
    }
    if amount <= 0 {
        return Err(Error::InvalidRecoveryAmount);
    }
    if is_recovered(vault, recovery_id) {
        return Err(Error::Replay);
    }
    Ok(())
}

/// Moves tokens that belong to no one out of the vault. Admin only.
///
/// `contract_balance` is what the token contract says the vault holds. Each
/// `recovery_id` works once.
pub fn do_recover_stranded_funds(
    vault: &mut Vault,
    admin: Address,
    token: Address,
    recipient: Address,
    amount: i128,
    recovery_id: String,
    reason: RecoveryReason,
    contract_balance: i128,
) -> (result: Result<(), Error>)
    ensures
        result == outcome(
            recover_refusal(old(vault)@, admin, token, amount, recovery_id@, contract_balance),
        ),
        final(vault)@ == recover_after(
            old(vault)@,
            admin,
            token,
            recipient,
            amount,
            recovery_id@,
            reason,
            contract_balance,
        ),
{
    vault.require_auth(admin);
    match check_recovery(vault, &admin, amount, &recovery_id) {
        Ok(()) => {},
        Err(e) => return Err(e),
    }
    let accounted_balance: i128 = get_total_accounted(vault, &token);
    let recoverable: i128 = match contract_balance.checked_sub(accounted_balance) {
        Some(recoverable) => recoverable,
        None => return Err(Error::Underflow),
    };
    if amount > recoverable {
        return Err(Error::InsufficientBalance);
    }
    let ghost before = vault.recoveries@;
    vault.recoveries.push(recovery_id);
    proof {
        let ids = before.map_values(|text: String| text@);
        let grown = vault.recoveries@.map_values(|text: String| text@);
        assert(grown =~= ids.push(recovery_id@));
        assert(grown.to_set() =~= ids.to_set().insert(recovery_id@)) by {
            assert(grown[ids.len() as int] == recovery_id@);
            assert forall|text: Seq<char>| ids.to_set().contains(text) implies grown.contains(
                text,
            ) by {
                let j = choose|j: int| 0 <= j < ids.len() && ids[j] == text;
                assert(grown[j] == text);
            }
        }
    }
    let timestamp: u64 = vault.timestamp;
    let contract = vault.contract;
    vault.publish(
        Event::Recovery(
            RecoveryEvent { admin, recipient, token, amount, reason, timestamp },
        ),
    );
    vault.transfer(token, contract, recipient, amount);
    Ok(())
}

/// Why [`set_protocol_fee`] is refused.
pub open spec fn protocol_fee_refusal(
    v: VaultState,
    admin: Address,
    fee_bps: u32,
) -> Option<Error> {
    match v.admin {
        None => Some(Error::NotInitialized),
        Some(stored) => if admin != stored {
            Some(Error::Forbidden)
        } else if fee_bps > MAX_FEE_BPS {
            Some(Error::InvalidInput)
        } else {
            None
        },
    }
}

/// The vault after [`set_protocol_fee`].
pub open spec fn protocol_fee_after(
    v: VaultState,
    admin: Address,
    treasury: Address,
    fee_bps: u32,
) -> VaultState {
    if protocol_fee_refusal(v, admin, fee_bps) is Some {
        v.demand(admin)
    } else {
        VaultState {
            fee_bps: Some(fee_bps),
            treasury: Some(treasury),
            ..v.demand(admin)
        }.publish(
            Event::ProtocolFeeConfigured(
                ProtocolFeeConfiguredEvent {
                    admin,
                    treasury,
                    fee_bps,
                    timestamp: v.timestamp,
                },
            ),
        )
    }
}

/// Sets the protocol fee in basis points and the treasury that collects it. Admin only.
///
/// `fee_bps` is at most [`MAX_FEE_BPS`]; zero disables the fee.
pub fn set_protocol_fee(
    vault: &mut Vault,
    admin: Address,
    treasury: Address,
    fee_bps: u32,
) -> (result: Result<(), Error>)
    ensures
        result == outcome(protocol_fee_refusal(old(vault)@, admin, fee_bps)),
        final(vault)@ == protocol_fee_after(old(vault)@, admin, treasury, fee_bps),
{
    vault.require_auth(admin);
    let stored = match require_admin(vault) {
        Ok(stored) => stored,
        Err(e) => return Err(e),
    };
    if admin != stored {
        return Err(Error::Forbidden);
    }
    if fee_bps > MAX_FEE_BPS {
        return Err(Error::InvalidInput);
    }
    vault.fee_bps = Some(fee_bps);
    vault.treasury = Some(treasury);
    let timestamp: u64 = vault.timestamp;
    vault.publish(
        Event::ProtocolFeeConfigured(
            ProtocolFeeConfiguredEvent { admin, treasury, fee_bps, timestamp },
        ),
    );
    Ok(())
}

/// The protocol fee in basis points (0 = disabled).
pub fn get_protocol_fee_bps(vault: &Vault) -> (fee_bps: u32)
    ensures
        fee_bps == (match vault@.fee_bps {
            Some(bps) => bps,
            None => 0,
        }),
{
    vault.fee_bps.unwrap_or(0)
}

/// The account that collects the protocol fee, if one is set.
pub fn get_treasury(vault: &Vault) -> (treasury: Option<Address>)
    ensures
        treasury == vault@.treasury,
{
    vault.treasury
}

} // verus!
