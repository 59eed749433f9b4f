//! The billing history: one row for every charge of a subscription.

use vstd::prelude::*;

use crate::types::{Address, BillingChargeKind, BillingStatement, Error, StatementId};
use crate::vault::{value_or, Vault, VaultState};

verus! {

impl VaultState {
    /// The number of statements recorded for a subscription.
    pub open spec fn statement_count(self, subscription_id: u32) -> u32 {
        value_or(self.statement_counts, subscription_id, 0)
    }

    /// The vault after recording `statement` as the next row of its subscription.
    pub open spec fn put_statement(self, statement: BillingStatement) -> VaultState {
        VaultState {
            statements: self.statements.insert(
                StatementId {
                    subscription_id: statement.subscription_id,
                    sequence: statement.sequence,
                },
                statement,
            ),
            statement_counts: self.statement_counts.insert(
                statement.subscription_id,
                (statement.sequence + 1) as u32,
            ),
            ..self
        }
    }

    /// The next row of a subscription.
    pub open spec fn next_statement(
        self,
        subscription_id: u32,
        amount: i128,
        merchant: Address,
        kind: BillingChargeKind,
        period_start: u64,
        period_end: u64,
    ) -> BillingStatement {
        BillingStatement {
            subscription_id,
            sequence: self.statement_count(subscription_id),
            charged_at: self.timestamp,
            period_start,
            period_end,
            amount,
            merchant,
            kind,
        }
    }
}

/// Records a charge as the next row of the subscription's history.
///
/// Rows are numbered from zero; `Overflow` is returned when the numbers run out.
pub fn append_statement(
    vault: &mut Vault,
    subscription_id: u32,
    amount: i128,
    merchant: Address,
    kind: BillingChargeKind,
    period_start: u64,
    period_end: u64,
) -> (appended: Result<(), Error>)
    ensures
        if old(vault)@.statement_count(subscription_id) == u32::MAX {
            appended == Err::<(), Error>(Error::Overflow) && final(vault)@ == old(vault)@
        } else {
            appended == Ok::<(), Error>(()) && final(vault)@ == old(vault)@.put_statement(
                old(vault)@.next_statement(
                    subscription_id,
                    amount,
                    merchant,
                    kind,
                    period_start,
                    period_end,
                ),
            )
        },
{
    let sequence: u32 = vault.statement_counts.copied(subscription_id).unwrap_or(0);
    if sequence == u32::MAX {
        return Err(Error::Overflow);
    }
    let statement = BillingStatement {
        subscription_id,
        sequence,
        charged_at: vault.timestamp,
        period_start,
        period_end,
        amount,
        merchant,
        kind,
    };
    vault.statements.set(StatementId { subscription_id, sequence }, statement);
    vault.statement_counts.set(subscription_id, sequence + 1);
    Ok(())
}

} // verus!
