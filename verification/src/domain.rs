//! The data the ledger core works on: transaction kinds, transaction
//! records, and what it means for each to be valid.

use vstd::prelude::*;

verus! {

/// The two directions a transaction can move a balance.
#[derive(Clone, Copy, Debug, PartialEq, Eq, Structural)]
pub enum TxKind {
    Credit,
    Debit,
}

/// Longest description a transaction may carry, in characters.
pub const MAX_DESCRIPTION_LEN: usize = 10;

/// A transaction amount is a strictly positive magnitude; zero is invalid
/// input, not a no-op.
pub open spec fn valid_amount(amount: int) -> bool {
    amount >= 1
}

/// A description is non-empty and at most ten characters long, counted by
/// characters.
pub open spec fn valid_description(description: Seq<char>) -> bool {
    1 <= description.len() <= MAX_DESCRIPTION_LEN
}

/// One immutable balance-change record, owned by exactly one account.
#[derive(Debug)]
pub struct Tx {
    /// Strictly positive magnitude of the balance change.
    pub amount: i32,
    /// Whether the amount was added or subtracted.
    pub kind: TxKind,
    /// Caller-supplied label, one to ten characters.
    pub description: String,
    /// Store-assigned instant, non-decreasing per account in insertion order.
    pub created_at: i64,
}

impl Tx {
    /// A well-formed record carries a valid amount and description.
    pub open spec fn wf(self) -> bool {
        valid_amount(self.amount as int) && valid_description(self.description@)
    }

    /// The record's effect on a balance: `+amount` for a credit, `-amount`
    /// for a debit.
    pub open spec fn signed_amount(self) -> int {
        match self.kind {
            TxKind::Credit => self.amount as int,
            TxKind::Debit => -(self.amount as int),
        }
    }
}

/// Net effect of a run of transactions on a balance.
pub open spec fn signed_sum(txs: Seq<Tx>) -> int
    decreases txs.len(),
{
    if txs.len() == 0 {
        0
    } else {
        signed_sum(txs.drop_last()) + txs.last().signed_amount()
    }
}

/// Sum of the credit amounts in a run of transactions.
pub open spec fn credit_sum(txs: Seq<Tx>) -> int
    decreases txs.len(),
{
    if txs.len() == 0 {
        0
    } else {
        credit_sum(txs.drop_last()) + if txs.last().kind is Credit {
            txs.last().amount as int
        } else {
            0
        }
    }
}

/// Sum of the debit amounts in a run of transactions.
pub open spec fn debit_sum(txs: Seq<Tx>) -> int
    decreases txs.len(),
{
    if txs.len() == 0 {
        0
    } else {
        debit_sum(txs.drop_last()) + if txs.last().kind is Debit {
            txs.last().amount as int
        } else {
            0
        }
    }
}

/// The net effect of a run of transactions is its credits minus its debits.
pub proof fn lemma_signed_sum_split(txs: Seq<Tx>)
    ensures
        signed_sum(txs) == credit_sum(txs) - debit_sum(txs),
    decreases txs.len(),
{
    if txs.len() > 0 {
        lemma_signed_sum_split(txs.drop_last());
    }
}

} // verus!
