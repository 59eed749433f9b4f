//! The earnings record of a merchant explains its balance.

use vstd::prelude::*;

use crate::calls::{after, refusal, Call};
use crate::laws::calls_change_only_their_part;
use crate::merchant::{credit_after, credit_refusal, no_earnings, reconciliation};
use crate::safe_math::fits;
use crate::types::{Address, BillingChargeKind, TokenEarnings};
use crate::vault::{empty_vault, VaultState};

verus! {

/// What has accrued from charges of all kinds.
pub open spec fn accrued_in_all(earnings: TokenEarnings) -> int {
    earnings.accruals.interval + earnings.accruals.usage + earnings.accruals.one_off
}

/// Whether the balance of `merchant` in `token` is what has accrued less what has been
/// withdrawn and refunded, and the token is listed among those in which the merchant has
/// earned.
pub open spec fn explained(v: VaultState, merchant: Address, token: Address) -> bool {
    let earnings = v.earnings(merchant, token);
    &&& v.merchant_balance(merchant, token) >= 0
    &&& earnings.accruals.interval >= 0
    &&& earnings.accruals.usage >= 0
    &&& earnings.accruals.one_off >= 0
    &&& earnings.withdrawals >= 0
    &&& earnings.refunds >= 0
    &&& v.merchant_balance(merchant, token) == accrued_in_all(earnings) - earnings.withdrawals
        - earnings.refunds
    &&& earnings != no_earnings() ==> v.earned_tokens(merchant).contains(token)
}

/// Whether the earnings explain every balance, and list every token once.
pub open spec fn reconciled(v: VaultState) -> bool {
    &&& forall|merchant: Address, token: Address| #[trigger] explained(v, merchant, token)
    &&& forall|merchant: Address| (#[trigger] v.earned_tokens(merchant)).no_duplicates()
}

/// A new vault is reconciled.
pub proof fn new_vault_is_reconciled(contract: Address, timestamp: u64)
    ensures
        reconciled(empty_vault(contract, timestamp)),
{
}

proof fn lemma_push_token(tokens: Seq<Address>, token: Address, other: Address)
    ensures
        tokens.contains(other) ==> tokens.push(token).contains(other),
        tokens.push(token).contains(token),
        tokens.no_duplicates() && !tokens.contains(token) ==> tokens.push(token).no_duplicates(),
{
    let longer = tokens.push(token);
    assert(longer[tokens.len() as int] == token);
    if tokens.contains(other) {
        let i = choose|i: int| 0 <= i < tokens.len() && tokens[i] == other;
        assert(longer[i] == other);
    }
}

/// Crediting a merchant keeps the vault reconciled.
pub proof fn credit_keeps_reconciled(
    v: VaultState,
    merchant: Address,
    token: Address,
    amount: i128,
    kind: BillingChargeKind,
)
    requires
        reconciled(v),
        credit_refusal(v, merchant, token, amount, kind) is None,
    ensures
        reconciled(credit_after(v, merchant, token, amount, kind)),
{
    let now = credit_after(v, merchant, token, amount, kind);
    assert forall|m: Address, t: Address| #[trigger] explained(now, m, t) by {
        assert(explained(v, m, t));
        lemma_push_token(v.earned_tokens(merchant), token, t);
        if m == merchant && t == token {
            assert(now.earned_tokens(m).contains(t));
        } else {
            assert(now.earnings(m, t) == v.earnings(m, t));
            assert(now.merchant_balance(m, t) == v.merchant_balance(m, t));
        }
    }
    assert forall|m: Address| (#[trigger] now.earned_tokens(m)).no_duplicates() by {
        assert(v.earned_tokens(m).no_duplicates());
        lemma_push_token(v.earned_tokens(merchant), token, token);
    }
}

proof fn lemma_charge_credits(v: VaultState, call: Call)
    requires
        refusal(v, call) is None,
        call is ChargeOneOff,
    ensures
        call matches Call::ChargeOneOff { subscription_id, merchant, amount } ==> ({
            let token = v.subscriptions[subscription_id].token;
            let kind = BillingChargeKind::OneOff;
            let credited = credit_after(v, merchant, token, amount, kind);
            &&& credit_refusal(v, merchant, token, amount, kind) is None
            &&& after(v, call).merchant_balances == credited.merchant_balances
            &&& after(v, call).merchant_earnings == credited.merchant_earnings
            &&& after(v, call).merchant_tokens == credited.merchant_tokens
        }),
{
    reveal(refusal);
    reveal(after);
}

proof fn lemma_same_earnings(v: VaultState, now: VaultState)
    requires
        reconciled(v),
        now.merchant_balances == v.merchant_balances,
        now.merchant_earnings == v.merchant_earnings,
        now.merchant_tokens == v.merchant_tokens,
    ensures
        reconciled(now),
{
    assert forall|m: Address, t: Address| #[trigger] explained(now, m, t) by {
        assert(explained(v, m, t));
    }
    assert forall|m: Address| (#[trigger] now.earned_tokens(m)).no_duplicates() by {
        assert(v.earned_tokens(m).no_duplicates());
    }
}

/// A call that succeeds keeps the vault reconciled.
pub proof fn success_keeps_reconciled(v: VaultState, call: Call)
    requires
        reconciled(v),
        refusal(v, call) is None,
    ensures
        reconciled(after(v, call)),
{
    let now = after(v, call);
    calls_change_only_their_part(v, call);
    match call {
        Call::ChargeOneOff { subscription_id, merchant, amount } => {
            let token = v.subscriptions[subscription_id].token;
            let kind = BillingChargeKind::OneOff;
            lemma_charge_credits(v, call);
            credit_keeps_reconciled(v, merchant, token, amount, kind);
            lemma_same_earnings(credit_after(v, merchant, token, amount, kind), now);
        },
        Call::WithdrawMerchant { merchant, token, .. } => {
            lemma_payout_keeps_explained(v, call);
        },
        Call::RefundByMerchant { merchant, token, .. } => {
            lemma_payout_keeps_explained(v, call);
        },
        _ => {
            lemma_same_earnings(v, now);
        },
    }
}

proof fn lemma_payout_keeps_explained(v: VaultState, call: Call)
    requires
        reconciled(v),
        refusal(v, call) is None,
        call is WithdrawMerchant || call is RefundByMerchant,
    ensures
        reconciled(after(v, call)),
{
    reveal(refusal);
    reveal(after);
    let now = after(v, call);
    assert forall|m: Address, t: Address| #[trigger] explained(now, m, t) by {
        assert(explained(v, m, t));
        assert(now.earned_tokens(m) == v.earned_tokens(m));
    }
    assert forall|m: Address| (#[trigger] now.earned_tokens(m)).no_duplicates() by {
        assert(v.earned_tokens(m).no_duplicates());
    }
}

/// The reconciliation of a token gives the balance that the merchant can withdraw, as long as
/// the sum of all accruals is an amount.
pub proof fn reconciliation_gives_the_balance(v: VaultState, merchant: Address, token: Address)
    requires
        reconciled(v),
        fits(accrued_in_all(v.earnings(merchant, token))),
    ensures
        reconciliation(token, v.earnings(merchant, token)).total_accruals == accrued_in_all(
            v.earnings(merchant, token),
        ),
        reconciliation(token, v.earnings(merchant, token)).computed_balance == v.merchant_balance(
            merchant,
            token,
        ),
{
    assert(explained(v, merchant, token));
}

} // verus!
