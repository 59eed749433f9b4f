//! Reading stored records.

use vstd::prelude::*;

use crate::types::{Error, Subscription};
use crate::vault::Vault;

verus! {

/// The subscription stored under `subscription_id`.
pub fn get_subscription(
    vault: &Vault,
    subscription_id: u32,
) -> (subscription: Result<Subscription, Error>)
    ensures
        subscription == (match vault@.subscription(subscription_id) {
            Some(sub) => Ok::<Subscription, Error>(sub),
            None => Err(Error::NotFound),
        }),
{
    match vault.subscriptions.copied(subscription_id) {
        Some(sub) => Ok(sub),
        None => Err(Error::NotFound),
    }
}

} // verus!
