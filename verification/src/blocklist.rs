//! Subscribers that may not use the vault.

use vstd::prelude::*;

use crate::types::{Address, Error};
use crate::vault::{value_or, Vault, VaultState};

verus! {

impl VaultState {
    /// Whether `account` is on the blocklist.
    pub open spec fn blocked(self, account: Address) -> bool {
        value_or(self.blocklist, account, false)
    }
}

/// Whether `account` is on the blocklist.
pub fn is_blocklisted(vault: &Vault, account: &Address) -> (blocked: bool)
    ensures
        blocked == vault@.blocked(*account),
{
    vault.blocklist.copied(*account).unwrap_or(false)
}

/// Refuses an account that is on the blocklist.
pub fn require_not_blocklisted(vault: &Vault, account: &Address) -> (valid: Result<(), Error>)
    ensures
        valid == (if vault@.blocked(*account) {
            Err::<(), Error>(Error::SubscriberBlocklisted)
        } else {
            Ok(())
        }),
{
    if is_blocklisted(vault, account) {
        return Err(Error::SubscriberBlocklisted);
    }
    Ok(())
}

} // verus!
