//! The life of a subscription: creating, funding, pausing, charging, cancelling,
//! archiving and paying back.
//!
//! A payment first checks, then changes the vault, and only then asks for the token
//! transfer.

use vstd::prelude::*;

use crate::accounting::{add_total_accounted, sub_total_accounted};
use crate::admin::{
    get_min_topup, get_token, is_token_accepted, outcome, require_admin_auth,
};
use crate::blocklist::{is_blocklisted, require_not_blocklisted};
use crate::events::{lemma_events_push, Event};
use crate::limits::{credit_limit_refusal, enforce_credit_limit_for_delta};
use crate::merchant::{credit_after, credit_merchant_balance_for_token, credit_refusal};
use crate::queries::get_subscription;
use crate::safe_math::{
    fits, next_count, safe_add, safe_add_balance, safe_sub, successor, validate_non_negative,
};
use crate::state_machine::{allowed, validate_status_transition};
use crate::statements::append_statement;
use crate::types::{
    Address, BillingChargeKind, Error, FundsDepositedEvent, LifetimeCapReachedEvent,
    OneOffChargedEvent, PartialRefundEvent, SubscriberWithdrawalEvent, Subscription,
    SubscriptionArchivedEvent, SubscriptionCancelledEvent, SubscriptionCreatedEvent,
    SubscriptionPausedEvent, SubscriptionRecoveryReadyEvent,
    SubscriptionResumedEvent, SubscriptionStatus, UsageLimits,
};
use crate::vault::{append_to, Vault, VaultState};

verus! {

/// The shortest billing interval.
pub const MIN_SUBSCRIPTION_INTERVAL_SECONDS: u64 = 60;

/// The last ID of the range. Creating a subscription directly stops before it; a subscription
/// from a plan template may get it.
pub const MAX_SUBSCRIPTION_ID: u32 = u32::MAX;

/// Takes the next subscription ID.
pub fn next_id(vault: &mut Vault) -> (id: u32)
    ensures
        id == old(vault)@.next_id,
        final(vault)@ == (VaultState { next_id: successor(old(vault)@.next_id), ..old(vault)@ }),
{
    let id: u32 = vault.next_id;
    vault.next_id = next_count(id);
    id
}

impl VaultState {
    /// The vault after opening `sub` under the next ID.
    pub open spec fn opened(self, sub: Subscription) -> VaultState {
        let id = self.next_id;
        VaultState {
            next_id: successor(id),
            subscriptions: self.subscriptions.insert(id, sub),
            merchant_subs: append_to(self.merchant_subs, sub.merchant, id),
            token_subs: append_to(self.token_subs, sub.token, id),
            ..self
        }.publish(
            Event::SubscriptionCreated(
                SubscriptionCreatedEvent {
                    subscription_id: id,
                    subscriber: sub.subscriber,
                    merchant: sub.merchant,
                    token: sub.token,
                    amount: sub.amount,
                    interval_seconds: sub.interval_seconds,
                    lifetime_cap: sub.lifetime_cap,
                    expires_at: sub.expires_at,
                },
            ),
        )
    }
}

/// Opens `sub` under the next ID.
pub(crate) fn open_subscription(vault: &mut Vault, sub: Subscription) -> (id: u32)
    ensures
        id == old(vault)@.next_id,
        final(vault)@ == old(vault)@.opened(sub),
{
    let id: u32 = next_id(vault);
    vault.put_subscription(id, sub);
    vault.index_by_merchant(sub.merchant, id);
    vault.index_by_token(sub.token, id);
    vault.publish(
        Event::SubscriptionCreated(
            SubscriptionCreatedEvent {
                subscription_id: id,
                subscriber: sub.subscriber,
                merchant: sub.merchant,
                token: sub.token,
                amount: sub.amount,
                interval_seconds: sub.interval_seconds,
                lifetime_cap: sub.lifetime_cap,
                expires_at: sub.expires_at,
            },
        ),
    );
    id
}

/// A subscription as it starts: active, with nothing paid in and nothing charged.
pub open spec fn new_subscription(
    subscriber: Address,
    merchant: Address,
    token: Address,
    amount: i128,
    interval_seconds: u64,
    usage_enabled: bool,
    lifetime_cap: Option<i128>,
    expires_at: Option<u64>,
    now: u64,
) -> Subscription {
    Subscription {
        subscriber,
        merchant,
        token,
        amount,
        interval_seconds,
        last_payment_timestamp: now,
        status: SubscriptionStatus::Active,
        prepaid_balance: 0,
        usage_enabled,
        lifetime_cap,
        lifetime_charged: 0,
        start_time: now,
        expires_at,
        grace_start_timestamp: None,
    }
}

/// Why a creation in the default token is refused before anyone's authorization is demanded.
pub open spec fn default_token_refusal(
    v: VaultState,
    subscriber: Address,
    amount: i128,
) -> Option<Error> {
    match v.token {
        None => Some(Error::NotFound),
        Some(token) => credit_limit_refusal(v, subscriber, token, amount),
    }
}

/// Why [`do_create_subscription`] is refused.
pub open spec fn create_in_default_token_refusal(
    v: VaultState,
    subscriber: Address,
    amount: i128,
    interval_seconds: u64,
    lifetime_cap: Option<i128>,
) -> Option<Error> {
    if default_token_refusal(v, subscriber, amount) is Some {
        default_token_refusal(v, subscriber, amount)
    } else {
        create_refusal(v, subscriber, v.token->0, amount, interval_seconds, lifetime_cap)
    }
}

/// The vault after [`do_create_subscription`].
pub open spec fn create_in_default_token_after(
    v: VaultState,
    subscriber: Address,
    merchant: Address,
    amount: i128,
    interval_seconds: u64,
    usage_enabled: bool,
    lifetime_cap: Option<i128>,
    expires_at: Option<u64>,
) -> VaultState {
    if default_token_refusal(v, subscriber, amount) is Some {
        v
    } else {
        create_after(
            v,
            subscriber,
            merchant,
            v.token->0,
            amount,
            interval_seconds,
            usage_enabled,
            lifetime_cap,
            expires_at,
        )
    }
}

/// Creates a subscription settled in the default token.
///
/// Returns the ID of the new subscription.
pub fn do_create_subscription(
    vault: &mut Vault,
    subscriber: Address,
    merchant: Address,
    amount: i128,
    interval_seconds: u64,
    usage_enabled: bool,
    lifetime_cap: Option<i128>,
    expires_at: Option<u64>,
) -> (result: Result<u32, Error>)
    ensures
        result == created(
            old(vault)@,
            create_in_default_token_refusal(
                old(vault)@,
                subscriber,
                amount,
                interval_seconds,
                lifetime_cap,
            ),
        ),
        final(vault)@ == create_in_default_token_after(
            old(vault)@,
            subscriber,
            merchant,
            amount,
            interval_seconds,
            usage_enabled,
            lifetime_cap,
            expires_at,
        ),
{
    let token = match get_token(vault) {
        Ok(token) => token,
        Err(e) => return Err(e),
    };
    match enforce_credit_limit_for_delta(vault, &subscriber, &token, amount) {
        Ok(()) => {},
        Err(e) => return Err(e),
    }
    do_create_subscription_with_token(
        vault,
        subscriber,
        merchant,
        token,
        amount,
        interval_seconds,
        usage_enabled,
        lifetime_cap,
        expires_at,
    )
}

/// What a creation returns: the next ID, unless it is refused.
pub open spec fn created(v: VaultState, refusal: Option<Error>) -> Result<u32, Error> {
    match refusal {
        Some(e) => Err(e),
        None => Ok(v.next_id),
    }
}

/// Why a lifetime cap does not go with a billing amount.
pub open spec fn cap_refusal(lifetime_cap: Option<i128>, amount: i128) -> Option<Error> {
    match lifetime_cap {
        None => None,
        Some(cap) => if cap <= 0 {
            Some(Error::InvalidAmount)
        } else if cap < amount {
            Some(Error::InvalidInput)
        } else {
            None
        },
    }
}

/// Why [`do_create_subscription_with_token`] is refused.
pub open spec fn create_refusal(
    v: VaultState,
    subscriber: Address,
    token: Address,
    amount: i128,
    interval_seconds: u64,
    lifetime_cap: Option<i128>,
) -> Option<Error> {
    if v.blocked(subscriber) {
        Some(Error::SubscriberBlocklisted)
    } else if amount < 0 {
        Some(Error::Underflow)
    } else if amount == 0 {
        Some(Error::InvalidAmount)
    } else if interval_seconds < MIN_SUBSCRIPTION_INTERVAL_SECONDS {
        Some(Error::InvalidInput)
    } else if !v.accepts(token) {
        Some(Error::InvalidInput)
    } else if cap_refusal(lifetime_cap, amount) is Some {
        cap_refusal(lifetime_cap, amount)
    } else if credit_limit_refusal(v, subscriber, token, amount) is Some {
        credit_limit_refusal(v, subscriber, token, amount)
    } else if v.next_id == MAX_SUBSCRIPTION_ID {
        Some(Error::SubscriptionLimitReached)
    } else {
        None
    }
}

/// The vault after [`do_create_subscription_with_token`].
pub open spec fn create_after(
    v: VaultState,
    subscriber: Address,
    merchant: Address,
    token: Address,
    amount: i128,
    interval_seconds: u64,
    usage_enabled: bool,
    lifetime_cap: Option<i128>,
    expires_at: Option<u64>,
) -> VaultState {
    if create_refusal(v, subscriber, token, amount, interval_seconds, lifetime_cap) is Some {
        v.demand(subscriber)
    } else {
        v.demand(subscriber).opened(
            new_subscription(
                subscriber,
                merchant,
                token,
                amount,
                interval_seconds,
                usage_enabled,
                lifetime_cap,
                expires_at,
                v.timestamp,
            ),
        )
    }
}

/// Creates a subscription settled in `token`.
///
/// Returns the ID of the new subscription.
pub fn do_create_subscription_with_token(
    vault: &mut Vault,
    subscriber: Address,
    merchant: Address,
    token: Address,
    amount: i128,
    interval_seconds: u64,
    usage_enabled: bool,
    lifetime_cap: Option<i128>,
    expires_at: Option<u64>,
) -> (result: Result<u32, Error>)
    ensures
        result == created(
            old(vault)@,
            create_refusal(
                old(vault)@,
                subscriber,
                token,
                amount,
                interval_seconds,
                lifetime_cap,
            ),
        ),
        final(vault)@ == create_after(
            old(vault)@,
            subscriber,
            merchant,
            token,
            amount,
            interval_seconds,
            usage_enabled,
            lifetime_cap,
            expires_at,
        ),
{
    vault.require_auth(subscriber);
    if is_blocklisted(vault, &subscriber) {
        return Err(Error::SubscriberBlocklisted);
    }
    match validate_non_negative(amount) {
        Ok(()) => {},
        Err(e) => return Err(e),
    }
    if amount == 0 {
        return Err(Error::InvalidAmount);
    }
    if interval_seconds < MIN_SUBSCRIPTION_INTERVAL_SECONDS {
        return Err(Error::InvalidInput);
    }
    if !is_token_accepted(vault, &token) {
        return Err(Error::InvalidInput);
    }
    if let Some(cap) = lifetime_cap {
        if cap <= 0 {
            return Err(Error::InvalidAmount);
        }
        if cap < amount {
            return Err(Error::InvalidInput);
        }
    }
    match enforce_credit_limit_for_delta(vault, &subscriber, &token, amount) {
        Ok(()) => {},
        Err(e) => return Err(e),
    }
    let sub = Subscription {
        subscriber,
        merchant,
        token,
        amount,
        interval_seconds,
        last_payment_timestamp: vault.timestamp,
        status: SubscriptionStatus::Active,
        prepaid_balance: 0,
        usage_enabled,
        lifetime_cap,
        lifetime_charged: 0,
        start_time: vault.timestamp,
        expires_at,
        grace_start_timestamp: None,
    };
    if vault.next_id == MAX_SUBSCRIPTION_ID {
        return Err(Error::SubscriptionLimitReached);
    }
    Ok(open_subscription(vault, sub))
}

/// Why a subscription whose time may be over takes no payment.
pub open spec fn expiry_refusal(v: VaultState, sub: Subscription) -> Option<Error> {
    if !sub.expired_at(v.timestamp) {
        None
    } else if !allowed(sub.status, SubscriptionStatus::Expired) {
        Some(Error::InvalidStatusTransition)
    } else {
        Some(Error::SubscriptionExpired)
    }
}

/// Refuses a payment on a subscription whose time is over.
///
/// Nothing is marked or published on this occasion: the subscription counts as expired from its
/// expiration timestamp on, and archiving it records that it has ended.
fn refuse_expired(vault: &Vault, sub: &Subscription) -> (result: Result<(), Error>)
    ensures
        result == outcome(expiry_refusal(vault@, *sub)),
{
    if !sub.is_expired(vault.timestamp) {
        return Ok(());
    }
    match validate_status_transition(&sub.status, &SubscriptionStatus::Expired) {
        Ok(()) => Err(Error::SubscriptionExpired),
        Err(e) => Err(e),
    }
}

/// Why a deposit is refused before the subscription is looked at.
pub open spec fn deposit_entry_refusal(
    v: VaultState,
    subscription_id: u32,
    subscriber: Address,
    amount: i128,
) -> Option<Error> {
    if v.blocked(subscriber) {
        Some(Error::SubscriberBlocklisted)
    } else {
        match v.min_topup {
            None => Some(Error::NotInitialized),
            Some(min_topup) => if amount < min_topup {
                Some(Error::BelowMinimumTopup)
            } else if amount < 0 {
                Some(Error::Underflow)
            } else if v.subscription(subscription_id) is None {
                Some(Error::NotFound)
            } else {
                None
            },
        }
    }
}

/// Why a deposit on a subscription that has not expired is refused before anything changes.
pub open spec fn deposit_check(
    v: VaultState,
    sub: Subscription,
    subscriber: Address,
    amount: i128,
) -> Option<Error> {
    if credit_limit_refusal(v, subscriber, sub.token, amount) is Some {
        credit_limit_refusal(v, subscriber, sub.token, amount)
    } else if !fits(sub.prepaid_balance + amount) {
        Some(Error::Overflow)
    } else {
        None
    }
}

/// Why [`do_deposit_funds`] is refused.
pub open spec fn deposit_refusal(
    v: VaultState,
    subscription_id: u32,
    subscriber: Address,
    amount: i128,
) -> Option<Error> {
    let sub = v.subscriptions[subscription_id];
    if deposit_entry_refusal(v, subscription_id, subscriber, amount) is Some {
        deposit_entry_refusal(v, subscription_id, subscriber, amount)
    } else if expiry_refusal(v, sub) is Some {
        expiry_refusal(v, sub)
    } else if deposit_check(v, sub, subscriber, amount) is Some {
        deposit_check(v, sub, subscriber, amount)
    } else if !fits(v.accounted(sub.token) + amount) {
        Some(Error::Overflow)
    } else {
        None
    }
}

/// Whether a subscription that ran out of funds has enough again.
pub open spec fn recovers(sub: Subscription) -> bool {
    &&& sub.status == SubscriptionStatus::InsufficientBalance || sub.status
        == SubscriptionStatus::GracePeriod
    &&& sub.prepaid_balance >= sub.amount
}

/// The vault after a deposit has been accounted for: a subscription that ran out of funds
/// and has enough again becomes active.
pub open spec fn recovery_after(v: VaultState, id: u32, sub: Subscription) -> VaultState {
    if recovers(sub) {
        v.put_subscription(
            id,
            Subscription { status: SubscriptionStatus::Active, ..sub },
        ).publish(
            Event::SubscriptionRecoveryReady(
                SubscriptionRecoveryReadyEvent {
                    subscription_id: id,
                    subscriber: sub.subscriber,
                    prepaid_balance: sub.prepaid_balance,
                    required_amount: sub.amount,
                    timestamp: v.timestamp,
                },
            ),
        ).publish(
            Event::SubscriptionResumed(
                SubscriptionResumedEvent { subscription_id: id, authorizer: sub.subscriber },
            ),
        )
    } else {
        v
    }
}

/// The vault after [`do_deposit_funds`].
///
/// When the accounting overflows, the deposit has already been stored and asked for.
pub open spec fn deposit_after(
    v: VaultState,
    subscription_id: u32,
    subscriber: Address,
    amount: i128,
) -> VaultState {
    let sub = v.subscriptions[subscription_id];
    let demanded = v.demand(subscriber);
    let accounted = v.accounted(sub.token) + amount;
    let funded = Subscription {
        prepaid_balance: (sub.prepaid_balance + amount) as i128,
        ..sub
    };
    let stored = demanded.put_subscription(subscription_id, funded).transfer(
        sub.token,
        subscriber,
        v.contract,
        amount,
    );
    if deposit_entry_refusal(v, subscription_id, subscriber, amount) is Some {
        demanded
    } else if expiry_refusal(v, sub) is Some {
        demanded
    } else if deposit_check(v, sub, subscriber, amount) is Some {
        demanded
    } else if !fits(accounted) {
        stored
    } else {
        recovery_after(
            stored.put_accounted(sub.token, accounted as i128).publish(
                Event::FundsDeposited(
                    FundsDepositedEvent {
                        subscription_id,
                        subscriber,
                        amount,
                        prepaid_balance: funded.prepaid_balance,
                    },
                ),
            ),
            subscription_id,
            funded,
        )
    }
}

proof fn lemma_refused_deposit_publishes_nothing(
    v: VaultState,
    subscription_id: u32,
    subscriber: Address,
    amount: i128,
)
    requires
        deposit_refusal(v, subscription_id, subscriber, amount) is Some,
    ensures
        deposit_after(v, subscription_id, subscriber, amount).events() == v.events(),
{
    broadcast use lemma_events_push;

}

/// Deposits `amount` into the prepaid balance of a subscription.
///
/// A subscription that ran out of funds becomes active once the next charge is covered.
pub fn do_deposit_funds(
    vault: &mut Vault,
    subscription_id: u32,
    subscriber: Address,
    amount: i128,
) -> (result: Result<(), Error>)
    ensures
        result == outcome(deposit_refusal(old(vault)@, subscription_id, subscriber, amount)),
        final(vault)@ == deposit_after(old(vault)@, subscription_id, subscriber, amount),
        result is Err ==> final(vault)@.events() == old(vault)@.events(),
{
    proof {
        if deposit_refusal(vault@, subscription_id, subscriber, amount) is Some {
            lemma_refused_deposit_publishes_nothing(vault@, subscription_id, subscriber, amount);
        }
    }
    vault.require_auth(subscriber);
    match require_not_blocklisted(vault, &subscriber) {
        Ok(()) => {},
        Err(e) => return Err(e),
    }

    // Checks.
    let min_topup: i128 = match get_min_topup(vault) {
        Ok(min_topup) => min_topup,
        Err(e) => return Err(e),
    };
    if amount < min_topup {
        return Err(Error::BelowMinimumTopup);
    }
    match validate_non_negative(amount) {
        Ok(()) => {},
        Err(e) => return Err(e),
    }
    let mut sub = match get_subscription(vault, subscription_id) {
        Ok(sub) => sub,
        Err(e) => return Err(e),
    };
    match refuse_expired(vault, &sub) {
        Ok(()) => {},
        Err(e) => return Err(e),
    }
    let token_addr = sub.token;
    match enforce_credit_limit_for_delta(vault, &subscriber, &token_addr, amount) {
        Ok(()) => {},
        Err(e) => return Err(e),
    }

    // Effects.
    sub.prepaid_balance = match safe_add_balance(sub.prepaid_balance, amount) {
        Ok(balance) => balance,
        Err(e) => return Err(e),
    };
    vault.put_subscription(subscription_id, sub);

    // Interactions.
    let contract = vault.contract;
    vault.transfer(token_addr, subscriber, contract, amount);
    match add_total_accounted(vault, &token_addr, amount) {
        Ok(()) => {},
        Err(e) => return Err(e),
    }
    vault.publish(
        Event::FundsDeposited(
            FundsDepositedEvent {
                subscription_id,
                subscriber,
                amount,
                prepaid_balance: sub.prepaid_balance,
            },
        ),
    );
    if (sub.status == SubscriptionStatus::InsufficientBalance || sub.status
        == SubscriptionStatus::GracePeriod) && sub.prepaid_balance >= sub.amount {
        sub.status = SubscriptionStatus::Active;
        vault.put_subscription(subscription_id, sub);
        let timestamp: u64 = vault.timestamp;
        vault.publish(
            Event::SubscriptionRecoveryReady(
                SubscriptionRecoveryReadyEvent {
                    subscription_id,
                    subscriber: sub.subscriber,
                    prepaid_balance: sub.prepaid_balance,
                    required_amount: sub.amount,
                    timestamp,
                },
            ),
        );
        vault.publish(
            Event::SubscriptionResumed(
                SubscriptionResumedEvent { subscription_id, authorizer: sub.subscriber },
            ),
        );
    }
    Ok(())
}

/// Why `authorizer` may not move a subscription to another status.
pub open spec fn party_refusal(
    v: VaultState,
    subscription_id: u32,
    authorizer: Address,
) -> Option<Error> {
    match v.subscription(subscription_id) {
        None => Some(Error::NotFound),
        Some(sub) => if sub.expired_at(v.timestamp) {
            Some(Error::SubscriptionExpired)
        } else if authorizer != sub.subscriber && authorizer != sub.merchant {
            Some(Error::Forbidden)
        } else {
            None
        },
    }
}

/// The subscription, if `authorizer` may move it to another status.
fn subscription_for_party(
    vault: &Vault,
    subscription_id: u32,
    authorizer: &Address,
) -> (result: Result<Subscription, Error>)
    ensures
        result == (match party_refusal(vault@, subscription_id, *authorizer) {
            Some(e) => Err::<Subscription, Error>(e),
            None => Ok(vault@.subscriptions[subscription_id]),
        }),
{
    let sub = match get_subscription(vault, subscription_id) {
        Ok(sub) => sub,
        Err(e) => return Err(e),
    };
    if sub.is_expired(vault.timestamp) {
        return Err(Error::SubscriptionExpired);
    }
    if *authorizer != sub.subscriber && *authorizer != sub.merchant {
        return Err(Error::Forbidden);
    }
    Ok(sub)
}

/// Why [`do_cancel_subscription`] is refused.
pub open spec fn cancel_refusal(
    v: VaultState,
    subscription_id: u32,
    authorizer: Address,
) -> Option<Error> {
    if party_refusal(v, subscription_id, authorizer) is Some {
        party_refusal(v, subscription_id, authorizer)
    } else if !allowed(
        v.subscriptions[subscription_id].status,
        SubscriptionStatus::Cancelled,
    ) {
        Some(Error::InvalidStatusTransition)
    } else {
        None
    }
}

/// The vault after [`do_cancel_subscription`].
pub open spec fn cancel_after(
    v: VaultState,
    subscription_id: u32,
    authorizer: Address,
) -> VaultState {
    let sub = v.subscriptions[subscription_id];
    if cancel_refusal(v, subscription_id, authorizer) is Some {
        v.demand(authorizer)
    } else {
        v.demand(authorizer).put_subscription(
            subscription_id,
            Subscription { status: SubscriptionStatus::Cancelled, ..sub },
        ).publish(
            Event::SubscriptionCancelled(
                SubscriptionCancelledEvent {
                    subscription_id,
                    authorizer,
                    refund_amount: sub.prepaid_balance,
                },
            ),
        )
    }
}

/// Cancels a subscription. The prepaid balance stays for the subscriber to withdraw.
pub fn do_cancel_subscription(
    vault: &mut Vault,
    subscription_id: u32,
    authorizer: Address,
) -> (result: Result<(), Error>)
    ensures
        result == outcome(cancel_refusal(old(vault)@, subscription_id, authorizer)),
        final(vault)@ == cancel_after(old(vault)@, subscription_id, authorizer),
{
    vault.require_auth(authorizer);
    let mut sub = match subscription_for_party(vault, subscription_id, &authorizer) {
        Ok(sub) => sub,
        Err(e) => return Err(e),
    };
    match validate_status_transition(&sub.status, &SubscriptionStatus::Cancelled) {
        Ok(()) => {},
        Err(e) => return Err(e),
    }
    let refund_amount: i128 = sub.prepaid_balance;
    sub.status = SubscriptionStatus::Cancelled;
    vault.put_subscription(subscription_id, sub);
    vault.publish(
        Event::SubscriptionCancelled(
            SubscriptionCancelledEvent { subscription_id, authorizer, refund_amount },
        ),
    );
    Ok(())
}

/// Why [`do_pause_subscription`] is refused.
pub open spec fn pause_refusal(
    v: VaultState,
    subscription_id: u32,
    authorizer: Address,
) -> Option<Error> {
    if party_refusal(v, subscription_id, authorizer) is Some {
        party_refusal(v, subscription_id, authorizer)
    } else if !allowed(v.subscriptions[subscription_id].status, SubscriptionStatus::Paused) {
        Some(Error::InvalidStatusTransition)
    } else {
        None
    }
}

/// The vault after [`do_pause_subscription`].
pub open spec fn pause_after(
    v: VaultState,
    subscription_id: u32,
    authorizer: Address,
) -> VaultState {
    let sub = v.subscriptions[subscription_id];
    if pause_refusal(v, subscription_id, authorizer) is Some || sub.status
        == SubscriptionStatus::Paused {
        v.demand(authorizer)
    } else {
        v.demand(authorizer).put_subscription(
            subscription_id,
            Subscription { status: SubscriptionStatus::Paused, ..sub },
        ).publish(
            Event::SubscriptionPaused(SubscriptionPausedEvent { subscription_id, authorizer }),
        )
    }
}

/// Pauses a subscription: it is not charged until it is resumed.
///
/// Only the subscriber or the merchant may pause, and only an active subscription; pausing a
/// paused one changes nothing.
pub fn do_pause_subscription(
    vault: &mut Vault,
    subscription_id: u32,
    authorizer: Address,
) -> (result: Result<(), Error>)
    ensures
        result == outcome(pause_refusal(old(vault)@, subscription_id, authorizer)),
        final(vault)@ == pause_after(old(vault)@, subscription_id, authorizer),
{
    vault.require_auth(authorizer);
    let mut sub = match subscription_for_party(vault, subscription_id, &authorizer) {
        Ok(sub) => sub,
        Err(e) => return Err(e),
    };
    match validate_status_transition(&sub.status, &SubscriptionStatus::Paused) {
        Ok(()) => {},
        Err(e) => return Err(e),
    }
    if sub.status == SubscriptionStatus::Paused {
        return Ok(());
    }
    sub.status = SubscriptionStatus::Paused;
    vault.put_subscription(subscription_id, sub);
    vault.publish(
        Event::SubscriptionPaused(SubscriptionPausedEvent { subscription_id, authorizer }),
    );
    Ok(())
}

/// Why [`do_resume_subscription`] is refused.
pub open spec fn resume_refusal(
    v: VaultState,
    subscription_id: u32,
    authorizer: Address,
) -> Option<Error> {
    let sub = v.subscriptions[subscription_id];
    if party_refusal(v, subscription_id, authorizer) is Some {
        party_refusal(v, subscription_id, authorizer)
    } else if authorizer == sub.subscriber && v.blocked(sub.subscriber) {
        Some(Error::SubscriberBlocklisted)
    } else if !allowed(sub.status, SubscriptionStatus::Active) {
        Some(Error::InvalidStatusTransition)
    } else if (sub.status == SubscriptionStatus::InsufficientBalance || sub.status
        == SubscriptionStatus::GracePeriod) && sub.prepaid_balance < sub.amount {
        Some(Error::InsufficientBalance)
    } else {
        None
    }
}

/// The vault after [`do_resume_subscription`].
pub open spec fn resume_after(
    v: VaultState,
    subscription_id: u32,
    authorizer: Address,
) -> VaultState {
    let sub = v.subscriptions[subscription_id];
    if resume_refusal(v, subscription_id, authorizer) is Some || sub.status
        == SubscriptionStatus::Active {
        v.demand(authorizer)
    } else {
        v.demand(authorizer).put_subscription(
            subscription_id,
            Subscription { status: SubscriptionStatus::Active, ..sub },
        ).publish(
            Event::SubscriptionResumed(SubscriptionResumedEvent { subscription_id, authorizer }),
        )
    }
}

/// Resumes a subscription that is paused or ran out of funds.
///
/// Only the subscriber or the merchant may resume; resuming an active subscription changes
/// nothing. One that ran out of funds needs enough for the next charge.
pub fn do_resume_subscription(
    vault: &mut Vault,
    subscription_id: u32,
    authorizer: Address,
) -> (result: Result<(), Error>)
    ensures
        result == outcome(resume_refusal(old(vault)@, subscription_id, authorizer)),
        final(vault)@ == resume_after(old(vault)@, subscription_id, authorizer),
{
    vault.require_auth(authorizer);
    let mut sub = match subscription_for_party(vault, subscription_id, &authorizer) {
        Ok(sub) => sub,
        Err(e) => return Err(e),
    };
    if authorizer == sub.subscriber {
        match require_not_blocklisted(vault, &sub.subscriber) {
            Ok(()) => {},
            Err(e) => return Err(e),
        }
    }
    match validate_status_transition(&sub.status, &SubscriptionStatus::Active) {
        Ok(()) => {},
        Err(e) => return Err(e),
    }
    if sub.status == SubscriptionStatus::Active {
        return Ok(());
    }
    if (sub.status == SubscriptionStatus::InsufficientBalance || sub.status
        == SubscriptionStatus::GracePeriod) && sub.prepaid_balance < sub.amount {
        return Err(Error::InsufficientBalance);
    }
    sub.status = SubscriptionStatus::Active;
    vault.put_subscription(subscription_id, sub);
    vault.publish(
        Event::SubscriptionResumed(SubscriptionResumedEvent { subscription_id, authorizer }),
    );
    Ok(())
}

/// Why a one-off charge on a subscription that has not expired is refused before anything
/// changes.
pub open spec fn charge_check(sub: Subscription, merchant: Address, amount: i128) -> Option<Error> {
    let charged = sub.lifetime_charged + amount;
    if sub.merchant != merchant {
        Some(Error::Unauthorized)
    } else if sub.status != SubscriptionStatus::Active && sub.status
        != SubscriptionStatus::Paused {
        Some(Error::NotActive)
    } else if amount <= 0 {
        Some(Error::InvalidAmount)
    } else if sub.prepaid_balance < amount {
        Some(Error::InsufficientPrepaidBalance)
    } else if !fits(charged) {
        Some(Error::Overflow)
    } else if sub.lifetime_cap is Some && charged > sub.lifetime_cap->0 {
        Some(Error::LifetimeCapReached)
    } else {
        None
    }
}

/// Why [`do_charge_one_off`] is refused.
pub open spec fn charge_refusal(
    v: VaultState,
    subscription_id: u32,
    merchant: Address,
    amount: i128,
) -> Option<Error> {
    let sub = v.subscriptions[subscription_id];
    let kind = BillingChargeKind::OneOff;
    if v.subscription(subscription_id) is None {
        Some(Error::NotFound)
    } else if expiry_refusal(v, sub) is Some {
        expiry_refusal(v, sub)
    } else if charge_check(sub, merchant, amount) is Some {
        charge_check(sub, merchant, amount)
    } else if credit_refusal(v, merchant, sub.token, amount, kind) is Some {
        credit_refusal(v, merchant, sub.token, amount, kind)
    } else if v.statement_count(subscription_id) == u32::MAX {
        Some(Error::Overflow)
    } else {
        None
    }
}

/// Whether a charge has used up the lifetime cap.
pub open spec fn cap_reached(sub: Subscription) -> bool {
    sub.lifetime_cap is Some && sub.lifetime_charged >= sub.lifetime_cap->0
}

/// The subscription after a charge of `amount`: one whose lifetime cap is used up is
/// cancelled.
pub open spec fn charged(sub: Subscription, amount: i128) -> Subscription {
    let debited = Subscription {
        lifetime_charged: (sub.lifetime_charged + amount) as i128,
        prepaid_balance: (sub.prepaid_balance - amount) as i128,
        ..sub
    };
    if cap_reached(debited) {
        Subscription { status: SubscriptionStatus::Cancelled, ..debited }
    } else {
        debited
    }
}

/// The vault after publishing a one-off charge that left the subscription as `sub`.
pub open spec fn publish_charge(
    v: VaultState,
    id: u32,
    sub: Subscription,
    amount: i128,
) -> VaultState {
    let published = v.publish(
        Event::OneOffCharged(
            OneOffChargedEvent {
                subscription_id: id,
                merchant: sub.merchant,
                token: sub.token,
                amount,
                remaining_balance: sub.prepaid_balance,
                timestamp: v.timestamp,
            },
        ),
    );
    if cap_reached(sub) {
        published.publish(
            Event::LifetimeCapReached(
                LifetimeCapReachedEvent {
                    subscription_id: id,
                    lifetime_cap: sub.lifetime_cap->0,
                    lifetime_charged: sub.lifetime_charged,
                    timestamp: v.timestamp,
                },
            ),
        )
    } else {
        published
    }
}

/// The vault after [`do_charge_one_off`].
///
/// When the merchant cannot be credited or the statement cannot be numbered, what came before
/// has already been stored.
pub open spec fn charge_after(
    v: VaultState,
    subscription_id: u32,
    merchant: Address,
    amount: i128,
) -> VaultState {
    let sub = v.subscriptions[subscription_id];
    let kind = BillingChargeKind::OneOff;
    let demanded = v.demand(merchant);
    let credited = credit_after(demanded, merchant, sub.token, amount, kind);
    let stored = credited.put_subscription(subscription_id, charged(sub, amount));
    if v.subscription(subscription_id) is None {
        demanded
    } else if expiry_refusal(v, sub) is Some {
        demanded
    } else if charge_check(sub, merchant, amount) is Some {
        demanded
    } else if credit_refusal(v, merchant, sub.token, amount, kind) is Some {
        credited
    } else if v.statement_count(subscription_id) == u32::MAX {
        stored
    } else {
        publish_charge(
            stored.put_statement(
                v.next_statement(
                    subscription_id,
                    amount,
                    merchant,
                    kind,
                    v.timestamp,
                    v.timestamp,
                ),
            ),
            subscription_id,
            charged(sub, amount),
            amount,
        )
    }
}

proof fn lemma_refused_charge_publishes_nothing(
    v: VaultState,
    subscription_id: u32,
    merchant: Address,
    amount: i128,
)
    requires
        charge_refusal(v, subscription_id, merchant, amount) is Some,
    ensures
        charge_after(v, subscription_id, merchant, amount).events() == v.events(),
{
    broadcast use lemma_events_push;

}

/// Charges `amount` once from the prepaid balance, on behalf of the merchant.
///
/// The charge counts toward the lifetime cap; a charge that uses the cap up cancels the
/// subscription.
pub fn do_charge_one_off(
    vault: &mut Vault,
    subscription_id: u32,
    merchant: Address,
    amount: i128,
) -> (result: Result<(), Error>)
    ensures
        result == outcome(charge_refusal(old(vault)@, subscription_id, merchant, amount)),
        final(vault)@ == charge_after(old(vault)@, subscription_id, merchant, amount),
        result is Err ==> final(vault)@.events() == old(vault)@.events(),
{
    proof {
        if charge_refusal(vault@, subscription_id, merchant, amount) is Some {
            lemma_refused_charge_publishes_nothing(vault@, subscription_id, merchant, amount);
        }
    }
    vault.require_auth(merchant);
    let mut sub = match get_subscription(vault, subscription_id) {
        Ok(sub) => sub,
        Err(e) => return Err(e),
    };
    match refuse_expired(vault, &sub) {
        Ok(()) => {},
        Err(e) => return Err(e),
    }
    if sub.merchant != merchant {
        return Err(Error::Unauthorized);
    }
    if sub.status != SubscriptionStatus::Active && sub.status != SubscriptionStatus::Paused {
        return Err(Error::NotActive);
    }
    if amount <= 0 {
        return Err(Error::InvalidAmount);
    }
    if sub.prepaid_balance < amount {
        return Err(Error::InsufficientPrepaidBalance);
    }
    let new_charged: i128 = match safe_add(sub.lifetime_charged, amount) {
        Ok(new_charged) => new_charged,
        Err(e) => return Err(e),
    };
    let mut reached = false;
    if let Some(cap) = sub.lifetime_cap {
        if new_charged > cap {
            return Err(Error::LifetimeCapReached);
        }
        reached = new_charged >= cap;
    }
    sub.lifetime_charged = new_charged;
    sub.prepaid_balance = match safe_sub(sub.prepaid_balance, amount) {
        Ok(balance) => balance,
        Err(e) => return Err(e),
    };
    match credit_merchant_balance_for_token(
        vault,
        &sub.merchant,
        &sub.token,
        amount,
        BillingChargeKind::OneOff,
    ) {
        Ok(()) => {},
        Err(e) => return Err(e),
    }
    if reached {
        match validate_status_transition(&sub.status, &SubscriptionStatus::Cancelled) {
            Ok(()) => {},
            Err(e) => return Err(e),
        }
        sub.status = SubscriptionStatus::Cancelled;
    }
    vault.put_subscription(subscription_id, sub);
    let now: u64 = vault.timestamp;
    match append_statement(
        vault,
        subscription_id,
        amount,
        sub.merchant,
        BillingChargeKind::OneOff,
        now,
        now,
    ) {
        Ok(()) => {},
        Err(e) => return Err(e),
    }
    vault.publish(
        Event::OneOffCharged(
            OneOffChargedEvent {
                subscription_id,
                merchant: sub.merchant,
                token: sub.token,
                amount,
                remaining_balance: sub.prepaid_balance,
                timestamp: now,
            },
        ),
    );
    if reached {
        if let Some(cap) = sub.lifetime_cap {
            vault.publish(
                Event::LifetimeCapReached(
                    LifetimeCapReachedEvent {
                        subscription_id,
                        lifetime_cap: cap,
                        lifetime_charged: sub.lifetime_charged,
                        timestamp: now,
                    },
                ),
            );
        }
    }
    Ok(())
}

/// Why [`do_cleanup_subscription`] is refused.
pub open spec fn cleanup_refusal(v: VaultState, subscription_id: u32) -> Option<Error> {
    match v.subscription(subscription_id) {
        None => Some(Error::NotFound),
        Some(sub) => if sub.status != SubscriptionStatus::Cancelled && !sub.expired_at(
            v.timestamp,
        ) {
            Some(Error::NotActive)
        } else {
            None
        },
    }
}

/// The vault after [`do_cleanup_subscription`].
pub open spec fn cleanup_after(
    v: VaultState,
    subscription_id: u32,
    authorizer: Address,
) -> VaultState {
    let sub = v.subscriptions[subscription_id];
    if cleanup_refusal(v, subscription_id) is Some || sub.status == SubscriptionStatus::Archived {
        v.demand(authorizer)
    } else {
        v.demand(authorizer).put_subscription(
            subscription_id,
            Subscription { status: SubscriptionStatus::Archived, ..sub },
        ).publish(
            Event::SubscriptionArchived(
                SubscriptionArchivedEvent { subscription_id, timestamp: v.timestamp },
            ),
        )
    }
}

/// Archives a subscription that is cancelled or whose time is over.
///
/// The record stays readable, and the prepaid balance can still be withdrawn.
pub fn do_cleanup_subscription(
    vault: &mut Vault,
    subscription_id: u32,
    authorizer: Address,
) -> (result: Result<(), Error>)
    ensures
        result == outcome(cleanup_refusal(old(vault)@, subscription_id)),
        final(vault)@ == cleanup_after(old(vault)@, subscription_id, authorizer),
{
    vault.require_auth(authorizer);
    let mut sub = match get_subscription(vault, subscription_id) {
        Ok(sub) => sub,
        Err(e) => return Err(e),
    };
    let now: u64 = vault.timestamp;
    let is_terminal = sub.status == SubscriptionStatus::Cancelled || sub.is_expired(now);
    if !is_terminal {
        return Err(Error::NotActive);
    }
    if sub.status != SubscriptionStatus::Archived {
        // A subscription whose time ran out unnoticed expires first.
        if sub.status != SubscriptionStatus::Cancelled && sub.status
            != SubscriptionStatus::Expired && sub.is_expired(now) {
            match validate_status_transition(&sub.status, &SubscriptionStatus::Expired) {
                Ok(()) => {},
                Err(e) => return Err(e),
            }
            sub.status = SubscriptionStatus::Expired;
        }
        match validate_status_transition(&sub.status, &SubscriptionStatus::Archived) {
            Ok(()) => {},
            Err(e) => return Err(e),
        }
        sub.status = SubscriptionStatus::Archived;
        vault.put_subscription(subscription_id, sub);
        vault.publish(
            Event::SubscriptionArchived(
                SubscriptionArchivedEvent { subscription_id, timestamp: now },
            ),
        );
    }
    Ok(())
}

/// Whether the prepaid balance of a subscription is free for the subscriber to withdraw.
pub open spec fn withdrawable(v: VaultState, sub: Subscription) -> bool {
    ||| sub.status == SubscriptionStatus::Cancelled
    ||| sub.status == SubscriptionStatus::Expired
    ||| sub.status == SubscriptionStatus::Archived
    ||| sub.expired_at(v.timestamp)
}

/// Why a withdrawal by the subscriber is refused before anything changes.
pub open spec fn payback_check(
    v: VaultState,
    subscription_id: u32,
    subscriber: Address,
) -> Option<Error> {
    match v.subscription(subscription_id) {
        None => Some(Error::NotFound),
        Some(sub) => if subscriber != sub.subscriber {
            Some(Error::Forbidden)
        } else if !withdrawable(v, sub) {
            Some(Error::InvalidStatusTransition)
        } else if sub.prepaid_balance <= 0 {
            Some(Error::InvalidAmount)
        } else {
            None
        },
    }
}

/// Why [`do_withdraw_subscriber_funds`] is refused.
pub open spec fn payback_refusal(
    v: VaultState,
    subscription_id: u32,
    subscriber: Address,
) -> Option<Error> {
    let sub = v.subscriptions[subscription_id];
    if payback_check(v, subscription_id, subscriber) is Some {
        payback_check(v, subscription_id, subscriber)
    } else if !fits(v.accounted(sub.token) - sub.prepaid_balance) {
        Some(Error::Underflow)
    } else {
        None
    }
}

/// The vault after paying `amount` of the prepaid balance of `sub` back to its subscriber.
pub open spec fn paid_back(v: VaultState, id: u32, sub: Subscription, amount: i128) -> VaultState {
    v.put_subscription(
        id,
        Subscription { prepaid_balance: (sub.prepaid_balance - amount) as i128, ..sub },
    ).transfer(sub.token, v.contract, sub.subscriber, amount)
}

/// The vault after [`do_withdraw_subscriber_funds`].
///
/// When the accounting overflows, the payment has already been stored and asked for.
pub open spec fn payback_after(
    v: VaultState,
    subscription_id: u32,
    subscriber: Address,
) -> VaultState {
    let sub = v.subscriptions[subscription_id];
    let amount = sub.prepaid_balance;
    let accounted = v.accounted(sub.token) - amount;
    let paid = paid_back(v.demand(subscriber), subscription_id, sub, amount);
    if payback_check(v, subscription_id, subscriber) is Some {
        v.demand(subscriber)
    } else if !fits(accounted) {
        paid
    } else {
        paid.put_accounted(sub.token, accounted as i128).publish(
            Event::SubscriberWithdrawal(
                SubscriberWithdrawalEvent {
                    subscription_id,
                    subscriber,
                    token: sub.token,
                    amount,
                    timestamp: v.timestamp,
                },
            ),
        )
    }
}

/// Pays the whole prepaid balance of a subscription that has ended back to the subscriber.
pub fn do_withdraw_subscriber_funds(
    vault: &mut Vault,
    subscription_id: u32,
    subscriber: Address,
) -> (result: Result<(), Error>)
    ensures
        result == outcome(payback_refusal(old(vault)@, subscription_id, subscriber)),
        final(vault)@ == payback_after(old(vault)@, subscription_id, subscriber),
{
    vault.require_auth(subscriber);
    let mut sub = match get_subscription(vault, subscription_id) {
        Ok(sub) => sub,
        Err(e) => return Err(e),
    };
    if subscriber != sub.subscriber {
        return Err(Error::Forbidden);
    }
    if sub.status != SubscriptionStatus::Cancelled && sub.status != SubscriptionStatus::Expired
        && sub.status != SubscriptionStatus::Archived && !sub.is_expired(vault.timestamp) {
        return Err(Error::InvalidStatusTransition);
    }
    let amount_to_refund: i128 = sub.prepaid_balance;
    if amount_to_refund <= 0 {
        return Err(Error::InvalidAmount);
    }
    let token_addr = sub.token;

    // Effects.
    sub.prepaid_balance = 0;
    vault.put_subscription(subscription_id, sub);

    // Interactions.
    let contract = vault.contract;
    vault.transfer(token_addr, contract, subscriber, amount_to_refund);
    match sub_total_accounted(vault, &token_addr, amount_to_refund) {
        Ok(()) => {},
        Err(e) => return Err(e),
    }
    let timestamp: u64 = vault.timestamp;
    vault.publish(
        Event::SubscriberWithdrawal(
            SubscriberWithdrawalEvent {
                subscription_id,
                subscriber,
                token: token_addr,
                amount: amount_to_refund,
                timestamp,
            },
        ),
    );
    Ok(())
}

/// Why a partial refund is refused before anything changes.
pub open spec fn partial_refund_check(
    v: VaultState,
    admin: Address,
    subscription_id: u32,
    subscriber: Address,
    amount: i128,
) -> Option<Error> {
    if v.admin_refusal(admin) is Some {
        v.admin_refusal(admin)
    } else if amount <= 0 {
        Some(Error::InvalidAmount)
    } else {
        match v.subscription(subscription_id) {
            None => Some(Error::NotFound),
            Some(sub) => if subscriber != sub.subscriber {
                Some(Error::Unauthorized)
            } else if amount > sub.prepaid_balance {
                Some(Error::InsufficientBalance)
            } else {
                None
            },
        }
    }
}

/// Why [`do_partial_refund`] is refused.
pub open spec fn partial_refund_refusal(
    v: VaultState,
    admin: Address,
    subscription_id: u32,
    subscriber: Address,
    amount: i128,
) -> Option<Error> {
    let sub = v.subscriptions[subscription_id];
    if partial_refund_check(v, admin, subscription_id, subscriber, amount) is Some {
        partial_refund_check(v, admin, subscription_id, subscriber, amount)
    } else if !fits(v.accounted(sub.token) - amount) {
        Some(Error::Underflow)
    } else {
        None
    }
}

/// The vault after [`do_partial_refund`].
///
/// When the accounting overflows, the refund has already been stored and asked for.
pub open spec fn partial_refund_after(
    v: VaultState,
    admin: Address,
    subscription_id: u32,
    subscriber: Address,
    amount: i128,
) -> VaultState {
    let sub = v.subscriptions[subscription_id];
    let accounted = v.accounted(sub.token) - amount;
    let paid = paid_back(v.demand(admin), subscription_id, sub, amount);
    if partial_refund_check(v, admin, subscription_id, subscriber, amount) is Some {
        v.demand(admin)
    } else if !fits(accounted) {
        paid
    } else {
        paid.put_accounted(sub.token, accounted as i128).publish(
            Event::PartialRefund(
                PartialRefundEvent {
                    subscription_id,
                    subscriber,
                    token: sub.token,
                    amount,
                    remaining_balance: (sub.prepaid_balance - amount) as i128,
                    timestamp: v.timestamp,
                },
            ),
        )
    }
}

/// Pays `amount` of the prepaid balance back to the subscriber, on the admin's authority.
pub fn do_partial_refund(
    vault: &mut Vault,
    admin: Address,
    subscription_id: u32,
    subscriber: Address,
    amount: i128,
) -> (result: Result<(), Error>)
    ensures
        result == outcome(
            partial_refund_refusal(old(vault)@, admin, subscription_id, subscriber, amount),
        ),
        final(vault)@ == partial_refund_after(
            old(vault)@,
            admin,
            subscription_id,
            subscriber,
            amount,
        ),
{
    match require_admin_auth(vault, &admin) {
        Ok(()) => {},
        Err(e) => return Err(e),
    }
    if amount <= 0 {
        return Err(Error::InvalidAmount);
    }
    let mut sub = match get_subscription(vault, subscription_id) {
        Ok(sub) => sub,
        Err(e) => return Err(e),
    };
    if subscriber != sub.subscriber {
        return Err(Error::Unauthorized);
    }
    if amount > sub.prepaid_balance {
        return Err(Error::InsufficientBalance);
    }

    // Effects.
    sub.prepaid_balance = match safe_sub(sub.prepaid_balance, amount) {
        Ok(balance) => balance,
        Err(e) => return Err(e),
    };
    vault.put_subscription(subscription_id, sub);

    // Interactions.
    let token_addr = sub.token;
    let contract = vault.contract;
    vault.transfer(token_addr, contract, subscriber, amount);
    match sub_total_accounted(vault, &sub.token, amount) {
        Ok(()) => {},
        Err(e) => return Err(e),
    }
    let timestamp: u64 = vault.timestamp;
    vault.publish(
        Event::PartialRefund(
            PartialRefundEvent {
                subscription_id,
                subscriber,
                token: token_addr,
                amount,
                remaining_balance: sub.prepaid_balance,
                timestamp,
            },
        ),
    );
    Ok(())
}

/// Why [`do_configure_usage_limits`] is refused.
pub open spec fn usage_limits_refusal(
    v: VaultState,
    merchant: Address,
    subscription_id: u32,
    usage_cap_units: Option<i128>,
) -> Option<Error> {
    match v.subscription(subscription_id) {
        None => Some(Error::NotFound),
        Some(sub) => if sub.merchant != merchant {
            Some(Error::Forbidden)
        } else if !sub.usage_enabled {
            Some(Error::UsageNotEnabled)
        } else if usage_cap_units is Some && usage_cap_units->0 <= 0 {
            Some(Error::InvalidAmount)
        } else {
            None
        },
    }
}

/// The vault after [`do_configure_usage_limits`].
pub open spec fn usage_limits_after(
    v: VaultState,
    merchant: Address,
    subscription_id: u32,
    limits: UsageLimits,
) -> VaultState {
    if usage_limits_refusal(v, merchant, subscription_id, limits.usage_cap_units) is Some {
        v.demand(merchant)
    } else {
        VaultState {
            usage_limits: v.usage_limits.insert(subscription_id, limits),
            ..v.demand(merchant)
        }
    }
}

/// Sets how fast and how much usage of a subscription may be charged.
pub fn do_configure_usage_limits(
    vault: &mut Vault,
    merchant: Address,
    subscription_id: u32,
    rate_limit_max_calls: Option<u32>,
    rate_window_secs: u64,
    burst_min_interval_secs: u64,
    usage_cap_units: Option<i128>,
) -> (result: Result<(), Error>)
    ensures
        result == outcome(
            usage_limits_refusal(old(vault)@, merchant, subscription_id, usage_cap_units),
        ),
        final(vault)@ == usage_limits_after(
            old(vault)@,
            merchant,
            subscription_id,
            (UsageLimits {
                rate_limit_max_calls,
                rate_window_secs,
                burst_min_interval_secs,
                usage_cap_units,
            }),
        ),
{
    vault.require_auth(merchant);
    let sub = match get_subscription(vault, subscription_id) {
        Ok(sub) => sub,
        Err(e) => return Err(e),
    };
    if sub.merchant != merchant {
        return Err(Error::Forbidden);
    }
    if !sub.usage_enabled {
        return Err(Error::UsageNotEnabled);
    }
    if let Some(cap) = usage_cap_units {
        if cap <= 0 {
            return Err(Error::InvalidAmount);
        }
    }
    let limits = UsageLimits {
        rate_limit_max_calls,
        rate_window_secs,
        burst_min_interval_secs,
        usage_cap_units,
    };
    vault.usage_limits.set(subscription_id, limits);
    Ok(())
}

} // verus!
