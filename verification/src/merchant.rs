//! Merchants: pausing, configuration, earnings, withdrawals and refunds.
//!
//! A payout first checks, then changes the vault, and asks for the token transfer last,
//! so that the transfer never sees a balance that is already spent.

use vstd::prelude::*;

use crate::accounting::sub_total_accounted;
use crate::admin::{get_token, is_token_accepted, outcome};
use crate::events::Event;
use crate::safe_math::{fits, safe_add, safe_sub, validate_non_negative};
use crate::types::{
    AccountToken, AccruedTotals, Address, BillingChargeKind, Error, MerchantConfig,
    MerchantPausedEvent, MerchantRefundEvent, MerchantUnpausedEvent, MerchantWithdrawalEvent,
    TokenEarnings, TokenReconciliationSnapshot,
};
use crate::vault::{append_to, copy_list, list_views, lookup, value_or, Vault, VaultState};

verus! {

/// Earnings of a merchant that has earned nothing.
pub open spec fn no_earnings() -> TokenEarnings {
    TokenEarnings {
        accruals: AccruedTotals { interval: 0, usage: 0, one_off: 0 },
        withdrawals: 0,
        refunds: 0,
    }
}

impl TokenEarnings {
    /// What has accrued from charges of one kind.
    pub open spec fn accrued(self, kind: BillingChargeKind) -> i128 {
        match kind {
            BillingChargeKind::Interval => self.accruals.interval,
            BillingChargeKind::Usage => self.accruals.usage,
            BillingChargeKind::OneOff => self.accruals.one_off,
        }
    }

    /// The earnings with `total` accrued from charges of one kind.
    pub open spec fn with_accrued(self, kind: BillingChargeKind, total: i128) -> TokenEarnings {
        match kind {
            BillingChargeKind::Interval => TokenEarnings {
                accruals: AccruedTotals { interval: total, ..self.accruals },
                ..self
            },
            BillingChargeKind::Usage => TokenEarnings {
                accruals: AccruedTotals { usage: total, ..self.accruals },
                ..self
            },
            BillingChargeKind::OneOff => TokenEarnings {
                accruals: AccruedTotals { one_off: total, ..self.accruals },
                ..self
            },
        }
    }
}

impl VaultState {
    /// Whether `merchant` is paused, by its configuration or by its pause flag.
    pub open spec fn merchant_is_paused(self, merchant: Address) -> bool {
        ||| self.merchant_configs.contains_key(merchant)
            && self.merchant_configs[merchant].is_paused
        ||| value_or(self.merchant_paused, merchant, false)
    }

    /// What `merchant` can withdraw of `token`.
    pub open spec fn merchant_balance(self, merchant: Address, token: Address) -> i128 {
        value_or(self.merchant_balances, AccountToken { account: merchant, token }, 0)
    }

    /// What `merchant` earned, withdrew and refunded of `token`.
    pub open spec fn earnings(self, merchant: Address, token: Address) -> TokenEarnings {
        value_or(self.merchant_earnings, AccountToken { account: merchant, token }, no_earnings())
    }

    /// The tokens in which `merchant` has earned.
    pub open spec fn earned_tokens(self, merchant: Address) -> Seq<Address> {
        value_or(self.merchant_tokens, merchant, Seq::empty())
    }

    /// The vault with the pause flag of `merchant` set to `paused`.
    pub open spec fn put_merchant_paused(self, merchant: Address, paused: bool) -> VaultState {
        VaultState { merchant_paused: self.merchant_paused.insert(merchant, paused), ..self }
    }

    /// The vault with `balance` for `merchant` to withdraw of `token`.
    pub open spec fn put_merchant_balance(
        self,
        merchant: Address,
        token: Address,
        balance: i128,
    ) -> VaultState {
        VaultState {
            merchant_balances: self.merchant_balances.insert(
                AccountToken { account: merchant, token },
                balance,
            ),
            ..self
        }
    }

    /// The vault with `earnings` recorded for `merchant` in `token`.
    pub open spec fn put_earnings(
        self,
        merchant: Address,
        token: Address,
        earnings: TokenEarnings,
    ) -> VaultState {
        VaultState {
            merchant_earnings: self.merchant_earnings.insert(
                AccountToken { account: merchant, token },
                earnings,
            ),
            ..self
        }
    }

    /// The vault with `token` among the tokens in which `merchant` has earned.
    pub open spec fn put_earned_token(self, merchant: Address, token: Address) -> VaultState {
        if self.earned_tokens(merchant).contains(token) {
            self
        } else {
            VaultState {
                merchant_tokens: append_to(self.merchant_tokens, merchant, token),
                ..self
            }
        }
    }
}

/// Whether `merchant` is paused, by its configuration or by its pause flag.
pub fn get_merchant_paused(vault: &Vault, merchant: Address) -> (paused: bool)
    ensures
        paused == vault@.merchant_is_paused(merchant),
{
    if let Some(config) = vault.merchant_configs.get(merchant) {
        if config.is_paused {
            return true;
        }
    }
    vault.merchant_paused.copied(merchant).unwrap_or(false)
}

/// Sets the pause flag of `merchant`.
pub fn set_merchant_paused(vault: &mut Vault, merchant: Address, paused: bool)
    ensures
        final(vault)@ == old(vault)@.put_merchant_paused(merchant, paused),
{
    vault.merchant_paused.set(merchant, paused);
}

/// The vault after [`pause_merchant`].
pub open spec fn pause_merchant_after(v: VaultState, merchant: Address) -> VaultState {
    if v.merchant_is_paused(merchant) {
        v.demand(merchant)
    } else {
        v.demand(merchant).put_merchant_paused(merchant, true).publish(
            Event::MerchantPaused(MerchantPausedEvent { merchant, timestamp: v.timestamp }),
        )
    }
}

/// Pauses all subscriptions of `merchant`. A merchant that is paused stays as it is.
pub fn pause_merchant(vault: &mut Vault, merchant: Address) -> (result: Result<(), Error>)
    ensures
        result == Ok::<(), Error>(()),
        final(vault)@ == pause_merchant_after(old(vault)@, merchant),
{
    vault.require_auth(merchant);
    if get_merchant_paused(vault, merchant) {
        return Ok(());
    }
    set_merchant_paused(vault, merchant, true);
    let timestamp: u64 = vault.timestamp;
    vault.publish(Event::MerchantPaused(MerchantPausedEvent { merchant, timestamp }));
    Ok(())
}

/// The vault after [`unpause_merchant`].
pub open spec fn unpause_merchant_after(v: VaultState, merchant: Address) -> VaultState {
    if !v.merchant_is_paused(merchant) {
        v.demand(merchant)
    } else {
        v.demand(merchant).put_merchant_paused(merchant, false).publish(
            Event::MerchantUnpaused(MerchantUnpausedEvent { merchant, timestamp: v.timestamp }),
        )
    }
}

/// Clears the pause flag of `merchant`. A merchant that is not paused stays as it is.
///
/// A pause that is part of the merchant's configuration stays in force.
pub fn unpause_merchant(vault: &mut Vault, merchant: Address) -> (result: Result<(), Error>)
    ensures
        result == Ok::<(), Error>(()),
        final(vault)@ == unpause_merchant_after(old(vault)@, merchant),
{
    vault.require_auth(merchant);
    if !get_merchant_paused(vault, merchant) {
        return Ok(());
    }
    set_merchant_paused(vault, merchant, false);
    let timestamp: u64 = vault.timestamp;
    vault.publish(Event::MerchantUnpaused(MerchantUnpausedEvent { merchant, timestamp }));
    Ok(())
}

/// Stores the configuration of `merchant`.
pub fn set_merchant_config(
    vault: &mut Vault,
    merchant: Address,
    config: MerchantConfig,
) -> (result: Result<(), Error>)
    ensures
        result == Ok::<(), Error>(()),
        final(vault)@ == (VaultState {
            merchant_configs: old(vault)@.merchant_configs.insert(merchant, config),
            ..old(vault)@.demand(merchant)
        }),
{
    vault.require_auth(merchant);
    vault.merchant_configs.set(merchant, config);
    Ok(())
}

/// The configuration of `merchant`, if one is stored.
pub fn get_merchant_config(vault: &Vault, merchant: Address) -> (config: Option<MerchantConfig>)
    ensures
        config == lookup(vault@.merchant_configs, merchant),
{
    match vault.merchant_configs.get(merchant) {
        Some(config) => Some(config.clone()),
        None => None,
    }
}

/// What `merchant` earned, withdrew and refunded of `token`.
pub fn get_merchant_token_earnings(
    vault: &Vault,
    merchant: &Address,
    token: &Address,
) -> (earnings: TokenEarnings)
    ensures
        earnings == vault@.earnings(*merchant, *token),
{
    match vault.merchant_earnings.copied(AccountToken { account: *merchant, token: *token }) {
        Some(earnings) => earnings,
        None => TokenEarnings {
            accruals: AccruedTotals { interval: 0, usage: 0, one_off: 0 },
            withdrawals: 0,
            refunds: 0,
        },
    }
}

/// Records what `merchant` earned, withdrew and refunded of `token`.
fn set_merchant_token_earnings(
    vault: &mut Vault,
    merchant: &Address,
    token: &Address,
    earnings: &TokenEarnings,
)
    ensures
        final(vault)@ == old(vault)@.put_earnings(*merchant, *token, *earnings),
{
    vault.merchant_earnings.set(AccountToken { account: *merchant, token: *token }, *earnings);
}

/// Whether `token` is in the list.
fn list_contains(tokens: &Vec<Address>, token: &Address) -> (found: bool)
    ensures
        found == tokens@.contains(*token),
{
    let mut i: usize = 0;
    while i < tokens.len()
        invariant
            i <= tokens@.len(),
            forall|j: int| 0 <= j < i ==> #[trigger] tokens@[j] != *token,
        decreases tokens@.len() - i,
    {
        if tokens[i] == *token {
            return true;
        }
        i = i + 1;
    }
    false
}

/// The tokens in which `merchant` has earned.
fn get_earned_tokens(vault: &Vault, merchant: &Address) -> (tokens: Vec<Address>)
    ensures
        tokens@ == vault@.earned_tokens(*merchant),
{
    match vault.merchant_tokens.get(*merchant) {
        Some(tokens) => copy_list(tokens),
        None => Vec::new(),
    }
}

/// Records that `merchant` has earned in `token`.
fn add_merchant_token(vault: &mut Vault, merchant: &Address, token: &Address)
    ensures
        final(vault)@ == old(vault)@.put_earned_token(*merchant, *token),
{
    let mut tokens = get_earned_tokens(vault, merchant);
    if !list_contains(&tokens, token) {
        tokens.push(*token);
        let ghost stored = tokens@;
        vault.merchant_tokens.set(*merchant, tokens);
        proof {
            assert(stored =~= old(vault)@.earned_tokens(*merchant).push(*token));
            assert(list_views(vault.merchant_tokens@) =~= append_to(
                old(vault)@.merchant_tokens,
                *merchant,
                *token,
            ));
        }
    }
}

/// The earnings of `merchant` in each token in which it has earned.
pub fn get_merchant_total_earnings(
    vault: &Vault,
    merchant: &Address,
) -> (list: Vec<(Address, TokenEarnings)>)
    ensures
        list@.len() == vault@.earned_tokens(*merchant).len(),
        forall|i: int|
            0 <= i < list@.len() ==> #[trigger] list@[i] == (
                vault@.earned_tokens(*merchant)[i],
                vault@.earnings(*merchant, vault@.earned_tokens(*merchant)[i]),
            ),
{
    let tokens = get_earned_tokens(vault, merchant);
    let mut result: Vec<(Address, TokenEarnings)> = Vec::new();
    let mut i: usize = 0;
    while i < tokens.len()
        invariant
            i <= tokens@.len(),
            result@.len() == i,
            forall|j: int|
                0 <= j < i ==> #[trigger] result@[j] == (
                    tokens@[j],
                    vault@.earnings(*merchant, tokens@[j]),
                ),
        decreases tokens@.len() - i,
    {
        let token = tokens[i];
        let earnings = get_merchant_token_earnings(vault, merchant, &token);
        result.push((token, earnings));
        i = i + 1;
    }
    result
}

/// `value` if it is an amount, and zero otherwise.
pub open spec fn amount_or_zero(value: int) -> i128 {
    if fits(value) {
        value as i128
    } else {
        0
    }
}

impl TokenEarnings {
    /// What has accrued from charges of all kinds; a sum that is not an amount counts as zero.
    pub open spec fn total_accruals(self) -> i128 {
        amount_or_zero(
            amount_or_zero(self.accruals.interval + self.accruals.usage) + self.accruals.one_off,
        )
    }

    /// What is left of the accruals; a difference that is not an amount counts as zero.
    pub open spec fn computed_balance(self) -> i128 {
        amount_or_zero(amount_or_zero(self.total_accruals() - self.withdrawals) - self.refunds)
    }
}

/// The reconciliation of one token of a merchant.
pub open spec fn reconciliation(
    token: Address,
    earnings: TokenEarnings,
) -> TokenReconciliationSnapshot {
    TokenReconciliationSnapshot {
        token,
        total_accruals: earnings.total_accruals(),
        total_withdrawals: earnings.withdrawals,
        total_refunds: earnings.refunds,
        computed_balance: earnings.computed_balance(),
    }
}

/// The sum of two amounts, zero if it is not an amount.
fn sum_or_zero(a: i128, b: i128) -> (sum: i128)
    ensures
        sum == amount_or_zero(a + b),
{
    a.checked_add(b).unwrap_or(0)
}

/// The difference of two amounts, zero if it is not an amount.
fn difference_or_zero(a: i128, b: i128) -> (difference: i128)
    ensures
        difference == amount_or_zero(a - b),
{
    a.checked_sub(b).unwrap_or(0)
}

/// Sets the accruals of `merchant` against its withdrawals and refunds, token by token.
pub fn get_reconciliation_snapshot(
    vault: &Vault,
    merchant: &Address,
) -> (list: Vec<TokenReconciliationSnapshot>)
    ensures
        list@.len() == vault@.earned_tokens(*merchant).len(),
        forall|i: int|
            0 <= i < list@.len() ==> #[trigger] list@[i] == reconciliation(
                vault@.earned_tokens(*merchant)[i],
                vault@.earnings(*merchant, vault@.earned_tokens(*merchant)[i]),
            ),
{
    let tokens = get_earned_tokens(vault, merchant);
    let mut result: Vec<TokenReconciliationSnapshot> = Vec::new();
    let mut i: usize = 0;
    while i < tokens.len()
        invariant
            i <= tokens@.len(),
            result@.len() == i,
            forall|j: int|
                0 <= j < i ==> #[trigger] result@[j] == reconciliation(
                    tokens@[j],
                    vault@.earnings(*merchant, tokens@[j]),
                ),
        decreases tokens@.len() - i,
    {
        let token = tokens[i];
        let earnings = get_merchant_token_earnings(vault, merchant, &token);
        let total_accruals: i128 = sum_or_zero(
            sum_or_zero(earnings.accruals.interval, earnings.accruals.usage),
            earnings.accruals.one_off,
        );
        let computed_balance: i128 = difference_or_zero(
            difference_or_zero(total_accruals, earnings.withdrawals),
            earnings.refunds,
        );
        result.push(
            TokenReconciliationSnapshot {
                token,
                total_accruals,
                total_withdrawals: earnings.withdrawals,
                total_refunds: earnings.refunds,
                computed_balance,
            },
        );
        i = i + 1;
    }
    result
}

/// What `merchant` can withdraw of the default token, zero if there is no default token.
pub fn get_merchant_balance(vault: &Vault, merchant: &Address) -> (balance: i128)
    ensures
        balance == (match vault@.token {
            Some(token) => vault@.merchant_balance(*merchant, token),
            None => 0,
        }),
{
    if let Ok(token_addr) = get_token(vault) {
        return get_merchant_balance_by_token(vault, merchant, &token_addr);
    }
    0
}

/// What `merchant` can withdraw of `token`.
pub fn get_merchant_balance_by_token(
    vault: &Vault,
    merchant: &Address,
    token: &Address,
) -> (balance: i128)
    ensures
        balance == vault@.merchant_balance(*merchant, *token),
{
    vault.merchant_balances.copied(AccountToken { account: *merchant, token: *token }).unwrap_or(0)
}

/// Sets what `merchant` can withdraw of `token`.
fn set_merchant_balance(vault: &mut Vault, merchant: &Address, token: &Address, balance: &i128)
    ensures
        final(vault)@ == old(vault)@.put_merchant_balance(*merchant, *token, *balance),
{
    vault.merchant_balances.set(AccountToken { account: *merchant, token: *token }, *balance);
}

/// Why [`credit_merchant_balance_for_token`] is refused.
pub open spec fn credit_refusal(
    v: VaultState,
    merchant: Address,
    token: Address,
    amount: i128,
    kind: BillingChargeKind,
) -> Option<Error> {
    if amount < 0 {
        Some(Error::Underflow)
    } else if !fits(v.merchant_balance(merchant, token) + amount) {
        Some(Error::Overflow)
    } else if !fits(v.earnings(merchant, token).accrued(kind) + amount) {
        Some(Error::Overflow)
    } else {
        None
    }
}

/// The vault after [`credit_merchant_balance_for_token`].
///
/// When the earnings overflow, the balance has already been raised.
pub open spec fn credit_after(
    v: VaultState,
    merchant: Address,
    token: Address,
    amount: i128,
    kind: BillingChargeKind,
) -> VaultState {
    let balance = v.merchant_balance(merchant, token) + amount;
    let accrued = v.earnings(merchant, token).accrued(kind) + amount;
    if amount < 0 || !fits(balance) {
        v
    } else if !fits(accrued) {
        v.put_merchant_balance(merchant, token, balance as i128)
    } else {
        v.put_merchant_balance(merchant, token, balance as i128).put_earnings(
            merchant,
            token,
            v.earnings(merchant, token).with_accrued(kind, accrued as i128),
        ).put_earned_token(merchant, token)
    }
}

/// Credits `merchant` in the default token.
pub fn credit_merchant_balance(
    vault: &mut Vault,
    merchant: &Address,
    amount: i128,
    kind: BillingChargeKind,
) -> (result: Result<(), Error>)
    ensures
        match old(vault)@.token {
            None => result == Err::<(), Error>(Error::NotFound) && final(vault)@ == old(vault)@,
            Some(token) => {
                &&& result == outcome(credit_refusal(old(vault)@, *merchant, token, amount, kind))
                &&& final(vault)@ == credit_after(old(vault)@, *merchant, token, amount, kind)
            },
        },
{
    match get_token(vault) {
        Ok(token_addr) => credit_merchant_balance_for_token(
            vault,
            merchant,
            &token_addr,
            amount,
            kind,
        ),
        Err(e) => Err(e),
    }
}

/// Credits `merchant` with `amount` of a token, earned by a charge of the given kind.
pub fn credit_merchant_balance_for_token(
    vault: &mut Vault,
    merchant: &Address,
    token_addr: &Address,
    amount: i128,
    kind: BillingChargeKind,
) -> (result: Result<(), Error>)
    ensures
        result == outcome(credit_refusal(old(vault)@, *merchant, *token_addr, amount, kind)),
        final(vault)@ == credit_after(old(vault)@, *merchant, *token_addr, amount, kind),
{
    match validate_non_negative(amount) {
        Ok(()) => {},
        Err(e) => return Err(e),
    }
    let current: i128 = get_merchant_balance_by_token(vault, merchant, token_addr);
    let new_balance: i128 = match safe_add(current, amount) {
        Ok(new_balance) => new_balance,
        Err(e) => return Err(e),
    };
    set_merchant_balance(vault, merchant, token_addr, &new_balance);

    let mut earnings = get_merchant_token_earnings(vault, merchant, token_addr);
    match kind {
        BillingChargeKind::Interval => {
            match earnings.accruals.interval.checked_add(amount) {
                Some(total) => {
                    earnings.accruals.interval = total;
                },
                None => return Err(Error::Overflow),
            }
        },
        BillingChargeKind::Usage => {
            match earnings.accruals.usage.checked_add(amount) {
                Some(total) => {
                    earnings.accruals.usage = total;
                },
                None => return Err(Error::Overflow),
            }
        },
        BillingChargeKind::OneOff => {
            match earnings.accruals.one_off.checked_add(amount) {
                Some(total) => {
                    earnings.accruals.one_off = total;
                },
                None => return Err(Error::Overflow),
            }
        },
    }
    set_merchant_token_earnings(vault, merchant, token_addr, &earnings);
    add_merchant_token(vault, merchant, token_addr);
    Ok(())
}

/// Withdraws `amount` of the default token for `merchant`.
///
/// `vault_balance` is what the token contract says the vault holds.
pub fn withdraw_merchant_funds(
    vault: &mut Vault,
    merchant: Address,
    amount: i128,
    vault_balance: i128,
) -> (result: Result<(), Error>)
    ensures
        match old(vault)@.token {
            None => result == Err::<(), Error>(Error::NotFound) && final(vault)@ == old(vault)@,
            Some(token) => {
                &&& result == outcome(
                    withdraw_refusal(old(vault)@, merchant, token, amount, vault_balance),
                )
                &&& final(vault)@ == withdraw_after(
                    old(vault)@,
                    merchant,
                    token,
                    amount,
                    vault_balance,
                )
            },
        },
{
    match get_token(vault) {
        Ok(token_addr) => withdraw_merchant_funds_for_token(
            vault,
            merchant,
            token_addr,
            amount,
            vault_balance,
        ),
        Err(e) => Err(e),
    }
}

/// Why a withdrawal is refused whatever the vault holds.
pub open spec fn withdraw_entry_refusal(
    v: VaultState,
    merchant: Address,
    token: Address,
    amount: i128,
) -> Option<Error> {
    let current = v.merchant_balance(merchant, token);
    if amount <= 0 {
        Some(Error::InvalidAmount)
    } else if !v.accepts(token) {
        Some(Error::InvalidInput)
    } else if current == 0 {
        Some(Error::NotFound)
    } else if amount > current {
        Some(Error::InsufficientBalance)
    } else {
        None
    }
}

/// Why a withdrawal is refused before anything changes.
pub open spec fn withdraw_check(
    v: VaultState,
    merchant: Address,
    token: Address,
    amount: i128,
    vault_balance: i128,
) -> Option<Error> {
    match withdraw_entry_refusal(v, merchant, token, amount) {
        Some(e) => Some(e),
        None => if vault_balance < amount {
            Some(Error::InsufficientBalance)
        } else {
            None
        },
    }
}

/// Refuses a withdrawal that needs no look at what the vault holds.
///
/// Only where it passes does the token contract have to be asked for the vault's balance.
pub fn check_merchant_withdrawal(
    vault: &Vault,
    merchant: &Address,
    token_addr: &Address,
    amount: i128,
) -> (result: Result<(), Error>)
    ensures
        result == outcome(withdraw_entry_refusal(vault@, *merchant, *token_addr, amount)),
{
    if amount <= 0 {
        return Err(Error::InvalidAmount);
    }
    if !is_token_accepted(vault, token_addr) {
        return Err(Error::InvalidInput);
    }
    let current: i128 = get_merchant_balance_by_token(vault, merchant, token_addr);
    if current == 0 {
        return Err(Error::NotFound);
    }
    if amount > current {
        return Err(Error::InsufficientBalance);
    }
    Ok(())
}

/// Why [`withdraw_merchant_funds_for_token`] is refused.
pub open spec fn withdraw_refusal(
    v: VaultState,
    merchant: Address,
    token: Address,
    amount: i128,
    vault_balance: i128,
) -> Option<Error> {
    match withdraw_check(v, merchant, token, amount, vault_balance) {
        Some(e) => Some(e),
        None => if !fits(v.accounted(token) - amount) {
            Some(Error::Underflow)
        } else if !fits(v.earnings(merchant, token).withdrawals + amount) {
            Some(Error::Overflow)
        } else {
            None
        },
    }
}

/// The vault after [`withdraw_merchant_funds_for_token`].
///
/// When the accounting or the earnings overflow, the balance has already been lowered.
pub open spec fn withdraw_after(
    v: VaultState,
    merchant: Address,
    token: Address,
    amount: i128,
    vault_balance: i128,
) -> VaultState {
    let remaining = (v.merchant_balance(merchant, token) - amount) as i128;
    let accounted = v.accounted(token) - amount;
    let withdrawals = v.earnings(merchant, token).withdrawals + amount;
    let lowered = v.demand(merchant).put_merchant_balance(merchant, token, remaining);
    if withdraw_check(v, merchant, token, amount, vault_balance) is Some {
        v.demand(merchant)
    } else if !fits(accounted) {
        lowered
    } else if !fits(withdrawals) {
        lowered.put_accounted(token, accounted as i128)
    } else {
        lowered.put_accounted(token, accounted as i128).put_earnings(
            merchant,
            token,
            TokenEarnings { withdrawals: withdrawals as i128, ..v.earnings(merchant, token) },
        ).publish(
            Event::MerchantWithdrawal(
                MerchantWithdrawalEvent { merchant, token, amount, remaining_balance: remaining },
            ),
        ).transfer(token, v.contract, merchant, amount)
    }
}

/// Withdraws `amount` of a token for `merchant`.
///
/// `vault_balance` is what the token contract says the vault holds.
pub fn withdraw_merchant_funds_for_token(
    vault: &mut Vault,
    merchant: Address,
    token_addr: Address,
    amount: i128,
    vault_balance: i128,
) -> (result: Result<(), Error>)
    ensures
        result == outcome(
            withdraw_refusal(old(vault)@, merchant, token_addr, amount, vault_balance),
        ),
        final(vault)@ == withdraw_after(
            old(vault)@,
            merchant,
            token_addr,
            amount,
            vault_balance,
        ),
{
    vault.require_auth(merchant);
    match check_merchant_withdrawal(vault, &merchant, &token_addr, amount) {
        Ok(()) => {},
        Err(e) => return Err(e),
    }
    let current: i128 = get_merchant_balance_by_token(vault, &merchant, &token_addr);
    if vault_balance < amount {
        return Err(Error::InsufficientBalance);
    }
    let new_balance: i128 = match safe_sub(current, amount) {
        Ok(new_balance) => new_balance,
        Err(e) => return Err(e),
    };

    // Effects.
    set_merchant_balance(vault, &merchant, &token_addr, &new_balance);
    match sub_total_accounted(vault, &token_addr, amount) {
        Ok(()) => {},
        Err(e) => return Err(e),
    }
    let mut earnings = get_merchant_token_earnings(vault, &merchant, &token_addr);
    match earnings.withdrawals.checked_add(amount) {
        Some(withdrawals) => {
            earnings.withdrawals = withdrawals;
        },
        None => return Err(Error::Overflow),
    }
    set_merchant_token_earnings(vault, &merchant, &token_addr, &earnings);
    vault.publish(
        Event::MerchantWithdrawal(
            MerchantWithdrawalEvent {
                merchant,
                token: token_addr,
                amount,
                remaining_balance: new_balance,
            },
        ),
    );

    // Interactions.
    let contract = vault.contract;
    vault.transfer(token_addr, contract, merchant, amount);
    Ok(())
}

/// Why a refund by a merchant is refused before anything changes.
pub open spec fn refund_check(
    v: VaultState,
    merchant: Address,
    token: Address,
    amount: i128,
) -> Option<Error> {
    let current = v.merchant_balance(merchant, token);
    if amount <= 0 {
        Some(Error::InvalidAmount)
    } else if current == 0 {
        Some(Error::NotFound)
    } else if amount > current {
        Some(Error::InsufficientBalance)
    } else {
        None
    }
}

/// Why [`merchant_refund`] is refused.
pub open spec fn refund_refusal(
    v: VaultState,
    merchant: Address,
    token: Address,
    amount: i128,
) -> Option<Error> {
    match refund_check(v, merchant, token, amount) {
        Some(e) => Some(e),
        None => if !fits(v.earnings(merchant, token).refunds + amount) {
            Some(Error::Overflow)
        } else {
            None
        },
    }
}

/// The vault after [`merchant_refund`].
///
/// When the earnings overflow, the balance has already been lowered.
pub open spec fn refund_after(
    v: VaultState,
    merchant: Address,
    subscriber: Address,
    token: Address,
    amount: i128,
) -> VaultState {
    let remaining = (v.merchant_balance(merchant, token) - amount) as i128;
    let refunds = v.earnings(merchant, token).refunds + amount;
    let lowered = v.demand(merchant).put_merchant_balance(merchant, token, remaining);
    if refund_check(v, merchant, token, amount) is Some {
        v.demand(merchant)
    } else if !fits(refunds) {
        lowered
    } else {
        lowered.put_earnings(
            merchant,
            token,
            TokenEarnings { refunds: refunds as i128, ..v.earnings(merchant, token) },
        ).publish(
            Event::MerchantRefund(MerchantRefundEvent { merchant, subscriber, token, amount }),
        ).transfer(token, v.contract, subscriber, amount)
    }
}

/// Pays `amount` out of the balance of `merchant` back to `subscriber`.
pub fn merchant_refund(
    vault: &mut Vault,
    merchant: Address,
    subscriber: Address,
    token_addr: Address,
    amount: i128,
) -> (result: Result<(), Error>)
    ensures
        result == outcome(refund_refusal(old(vault)@, merchant, token_addr, amount)),
        final(vault)@ == refund_after(old(vault)@, merchant, subscriber, token_addr, amount),
{
    vault.require_auth(merchant);
    if amount <= 0 {
        return Err(Error::InvalidAmount);
    }
    let current: i128 = get_merchant_balance_by_token(vault, &merchant, &token_addr);
    if current == 0 {
        return Err(Error::NotFound);
    }
    if amount > current {
        return Err(Error::InsufficientBalance);
    }
    let new_balance: i128 = match current.checked_sub(amount) {
        Some(new_balance) => new_balance,
        None => return Err(Error::Overflow),
    };

    // Effects.
    set_merchant_balance(vault, &merchant, &token_addr, &new_balance);
    let mut earnings = get_merchant_token_earnings(vault, &merchant, &token_addr);
    match earnings.refunds.checked_add(amount) {
        Some(refunds) => {
            earnings.refunds = refunds;
        },
        None => return Err(Error::Overflow),
    }
    set_merchant_token_earnings(vault, &merchant, &token_addr, &earnings);
    vault.publish(
        Event::MerchantRefund(
            MerchantRefundEvent { merchant, subscriber, token: token_addr, amount },
        ),
    );

    // Interactions.
    let contract = vault.contract;
    vault.transfer(token_addr, contract, subscriber, amount);
    Ok(())
}

} // verus!
