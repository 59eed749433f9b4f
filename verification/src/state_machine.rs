//! Which status a subscription may move to.

use vstd::prelude::*;

use crate::types::{Error, SubscriptionStatus};

verus! {

/// Whether a subscription may move from status `from` to status `to`.
///
/// Staying in the same status is always allowed.
pub open spec fn allowed(from: SubscriptionStatus, to: SubscriptionStatus) -> bool {
    from == to || match from {
        SubscriptionStatus::Active => {
            ||| to == SubscriptionStatus::Paused
            ||| to == SubscriptionStatus::Cancelled
            ||| to == SubscriptionStatus::InsufficientBalance
            ||| to == SubscriptionStatus::GracePeriod
            ||| to == SubscriptionStatus::Expired
        },
        SubscriptionStatus::Paused => {
            ||| to == SubscriptionStatus::Active
            ||| to == SubscriptionStatus::Cancelled
            ||| to == SubscriptionStatus::Expired
        },
        SubscriptionStatus::InsufficientBalance => {
            ||| to == SubscriptionStatus::Active
            ||| to == SubscriptionStatus::Cancelled
            ||| to == SubscriptionStatus::Expired
        },
        SubscriptionStatus::GracePeriod => {
            ||| to == SubscriptionStatus::Active
            ||| to == SubscriptionStatus::InsufficientBalance
            ||| to == SubscriptionStatus::Cancelled
            ||| to == SubscriptionStatus::Expired
        },
        SubscriptionStatus::Cancelled => to == SubscriptionStatus::Archived,
        SubscriptionStatus::Expired => to == SubscriptionStatus::Archived,
        SubscriptionStatus::Archived => false,
    }
}

/// Refuses a move that the state machine does not allow.
pub fn validate_status_transition(
    from: &SubscriptionStatus,
    to: &SubscriptionStatus,
) -> (valid: Result<(), Error>)
    ensures
        valid == (if allowed(*from, *to) {
            Ok(())
        } else {
            Err::<(), Error>(Error::InvalidStatusTransition)
        }),
{
    if *from == *to {
        return Ok(());
    }
    let valid = match *from {
        SubscriptionStatus::Active => *to != SubscriptionStatus::Archived,
        SubscriptionStatus::Paused | SubscriptionStatus::InsufficientBalance => {
            *to == SubscriptionStatus::Active || *to == SubscriptionStatus::Cancelled || *to
                == SubscriptionStatus::Expired
        },
        SubscriptionStatus::GracePeriod => {
            *to == SubscriptionStatus::Active || *to == SubscriptionStatus::InsufficientBalance
                || *to == SubscriptionStatus::Cancelled || *to == SubscriptionStatus::Expired
        },
        SubscriptionStatus::Cancelled | SubscriptionStatus::Expired => *to
            == SubscriptionStatus::Archived,
        SubscriptionStatus::Archived => false,
    };
    if valid {
        Ok(())
    } else {
        Err(Error::InvalidStatusTransition)
    }
}

} // verus!
