//! How much of each token the vault holds on someone's behalf.

use vstd::prelude::*;

use crate::safe_math::{difference_or_underflow, safe_add, safe_sub, sum_or_overflow};
use crate::types::{Address, Error};
use crate::vault::{value_or, Vault, VaultState};

verus! {

impl VaultState {
    /// The part of the holdings of `token` that belongs to someone.
    pub open spec fn accounted(self, token: Address) -> i128 {
        value_or(self.total_accounted, token, 0)
    }

    /// The vault with `total` accounted for in `token`.
    pub open spec fn put_accounted(self, token: Address, total: i128) -> VaultState {
        VaultState { total_accounted: self.total_accounted.insert(token, total), ..self }
    }
}

/// The part of the holdings of `token` that belongs to someone.
pub fn get_total_accounted(vault: &Vault, token: &Address) -> (total: i128)
    ensures
        total == vault@.accounted(*token),
{
    vault.total_accounted.copied(*token).unwrap_or(0)
}

/// Accounts for `amount` more of `token`.
pub fn add_total_accounted(
    vault: &mut Vault,
    token: &Address,
    amount: i128,
) -> (added: Result<(), Error>)
    ensures
        match sum_or_overflow(old(vault)@.accounted(*token), amount) {
            Ok(total) => added == Ok::<(), Error>(()) && final(vault)@ == old(vault)@.put_accounted(
                *token,
                total,
            ),
            Err(e) => added == Err::<(), Error>(e) && final(vault)@ == old(vault)@,
        },
{
    let current: i128 = get_total_accounted(vault, token);
    match safe_add(current, amount) {
        Ok(total) => {
            vault.total_accounted.set(*token, total);
            Ok(())
        },
        Err(e) => Err(e),
    }
}

/// Accounts for `amount` less of `token`.
pub fn sub_total_accounted(
    vault: &mut Vault,
    token: &Address,
    amount: i128,
) -> (taken: Result<(), Error>)
    ensures
        match difference_or_underflow(old(vault)@.accounted(*token), amount) {
            Ok(total) => taken == Ok::<(), Error>(()) && final(vault)@ == old(vault)@.put_accounted(
                *token,
                total,
            ),
            Err(e) => taken == Err::<(), Error>(e) && final(vault)@ == old(vault)@,
        },
{
    let current: i128 = get_total_accounted(vault, token);
    match safe_sub(current, amount) {
        Ok(total) => {
            vault.total_accounted.set(*token, total);
            Ok(())
        },
        Err(e) => Err(e),
    }
}

} // verus!
