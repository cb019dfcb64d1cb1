//! One account: its immutable identity and limit, its running balance, and
//! its append-only transaction history, with the invariant that ties them
//! together.

use vstd::prelude::*;

use crate::domain::{signed_sum, credit_sum, debit_sum, lemma_signed_sum_split, Tx};
use crate::engine::{apply_decision, decide, parse_kind, parse_kind_spec};
use crate::error::Error;

verus! {

/// Snapshot of one account row: identity, limit and current balance.
pub struct Client {
    pub id: i32,
    pub name: String,
    pub credit_limit: i32,
    pub balance: i32,
}

/// What a successful balance mutation reports back: the account's limit and
/// its new balance.
#[derive(Clone, Copy, Debug, PartialEq, Eq, Structural)]
pub struct Receipt {
    pub credit_limit: i32,
    pub balance: i32,
}

/// One account with its full history. `id`, `name`, `credit_limit` and
/// `initial_balance` are fixed at provisioning; only `apply_tx` moves
/// `balance`, and it appends the matching record in the same step.
pub struct Account {
    pub id: i32,
    pub name: String,
    pub credit_limit: i32,
    pub initial_balance: i32,
    pub balance: i32,
    pub transactions: Vec<Tx>,
}

impl Account {
    /// The account invariant: a positive id, a non-negative limit, a history
    /// of well-formed records with non-decreasing timestamps, and a balance
    /// that equals the provisioned balance plus the history's net effect and
    /// never sits below `-credit_limit`.
    pub open spec fn wf(self) -> bool {
        &&& self.id >= 1
        &&& self.credit_limit >= 0
        &&& -self.credit_limit <= self.initial_balance
        &&& self.balance == self.initial_balance + signed_sum(self.transactions@)
        &&& -self.credit_limit <= self.balance
        &&& forall|i: int|
            0 <= i < self.transactions@.len() ==> (#[trigger] self.transactions@[i]).wf()
        &&& forall|i: int, j: int|
            0 <= i <= j < self.transactions@.len() ==> #[trigger] self.transactions@[i].created_at
                <= #[trigger] self.transactions@[j].created_at
    }

    /// The timestamp the store assigns to the next record: the caller's
    /// clock reading, pushed up to the newest existing record's timestamp
    /// so that per-account timestamps never decrease.
    pub open spec fn next_created_at(self, now: i64) -> i64 {
        if self.transactions@.len() == 0 {
            now
        } else if now < self.transactions@.last().created_at {
            self.transactions@.last().created_at
        } else {
            now
        }
    }

    /// A freshly provisioned account: no history yet.
    pub fn new(id: i32, name: &str, credit_limit: i32, initial_balance: i32) -> (a: Account)
        requires
            id >= 1,
            credit_limit >= 0,
            -credit_limit <= initial_balance,
        ensures
            a.wf(),
            a.id == id,
            a.name@ == name@,
            a.credit_limit == credit_limit,
            a.initial_balance == initial_balance,
            a.balance == initial_balance,
            a.transactions@.len() == 0,
    {
        Account {
            id,
            name: name.to_owned(),
            credit_limit,
            initial_balance,
            balance: initial_balance,
            transactions: Vec::new(),
        }
    }

    /// The atomic read-check-write unit of the balance mutation engine, for
    /// this one account: decide exactly as `apply_decision` says, and on
    /// success persist the new balance together with the new record; on any
    /// failure change nothing.
    pub fn apply_tx(&mut self, kind: &str, amount: i32, description: &str, now: i64) -> (r:
        Result<Receipt, Error>)
        requires
            old(self).wf(),
        ensures
            final(self).wf(),
            final(self).id == old(self).id,
            final(self).name == old(self).name,
            final(self).credit_limit == old(self).credit_limit,
            final(self).initial_balance == old(self).initial_balance,
            match apply_decision(
                old(self).balance as int,
                old(self).credit_limit as int,
                kind@,
                amount as int,
                description@,
            ) {
                Err(e) => r == Err::<Receipt, Error>(e) && *final(self) == *old(self),
                Ok(new_balance) => {
                    &&& r == Ok::<Receipt, Error>(
                        Receipt {
                            credit_limit: old(self).credit_limit,
                            balance: new_balance as i32,
                        },
                    )
                    &&& final(self).balance == new_balance
                    &&& final(self).transactions@.len() == old(self).transactions@.len() + 1
                    &&& forall|i: int|
                        0 <= i < old(self).transactions@.len() ==> final(self).transactions@[i]
                            == old(self).transactions@[i]
                    &&& final(self).transactions@.last().amount == amount
                    &&& final(self).transactions@.last().kind == parse_kind_spec(kind@).unwrap()
                    &&& final(self).transactions@.last().description@ == description@
                    &&& final(self).transactions@.last().created_at == old(self).next_created_at(
                        now,
                    )
                },
            },
    {
        let parsed = parse_kind(kind);
        let outcome = decide(self.balance, self.credit_limit, kind, amount, description);
        match outcome {
            Err(e) => Err(e),
            Ok(new_balance) => {
                let k = match parsed {
                    Some(k) => k,
                    None => {
                        // Never reached: the decision succeeded, so the kind
                        // parsed.
                        proof {
                            assert(false);
                        }
                        return Err(Error::InvalidInput);
                    },
                };
                let created_at = if self.transactions.len() == 0 {
                    now
                } else {
                    let last_ts = self.transactions[self.transactions.len() - 1].created_at;
                    if now < last_ts {
                        last_ts
                    } else {
                        now
                    }
                };
                let tx = Tx { amount, kind: k, description: description.to_owned(), created_at };
                let ghost prev = self.transactions@;
                let ghost new_tx = tx;
                self.transactions.push(tx);
                self.balance = new_balance;
                proof {
                    assert(prev.push(new_tx).drop_last() =~= prev);
                }
                Ok(Receipt { credit_limit: self.credit_limit, balance: new_balance })
            },
        }
    }

    /// The account's ten most recent transactions (all of them, if it has
    /// fewer), newest first; ties in `created_at` are broken by insertion
    /// order, the most recently inserted first.
    pub fn recent_transactions(&self) -> (r: Vec<Tx>)
        ensures
            r@.len() == if self.transactions@.len() < 10 {
                self.transactions@.len()
            } else {
                10
            },
            forall|k: int|
                0 <= k < r@.len() ==> r@[k] == self.transactions@[self.transactions@.len() - 1 - k],
    {
        let total = self.transactions.len();
        let mut out: Vec<Tx> = Vec::new();
        let mut taken: usize = 0;
        while taken < 10 && taken < total
            invariant
                out@.len() == taken,
                taken <= 10,
                taken <= total,
                total == self.transactions@.len(),
                forall|k: int|
                    0 <= k < taken ==> out@[k] == self.transactions@[total - 1 - k],
            decreases 10 - taken,
        {
            let t = &self.transactions[total - 1 - taken];
            out.push(
                Tx {
                    amount: t.amount,
                    kind: t.kind,
                    description: t.description.clone(),
                    created_at: t.created_at,
                },
            );
            taken = taken + 1;
        }
        out
    }

    /// The current row snapshot of this account.
    pub fn snapshot(&self) -> (c: Client)
        ensures
            c.id == self.id,
            c.name == self.name,
            c.credit_limit == self.credit_limit,
            c.balance == self.balance,
    {
        Client {
            id: self.id,
            name: self.name.clone(),
            credit_limit: self.credit_limit,
            balance: self.balance,
        }
    }
}

/// Accounting law: after any sequence of successfully applied transactions,
/// an account's balance equals its provisioned balance plus the sum of its
/// credit amounts minus the sum of its debit amounts, and still sits at or
/// above `-credit_limit`.
pub proof fn lemma_balance_accounting(a: Account)
    requires
        a.wf(),
    ensures
        a.balance == a.initial_balance + credit_sum(a.transactions@) - debit_sum(a.transactions@),
        a.balance >= -a.credit_limit,
{
    lemma_signed_sum_split(a.transactions@);
}

} // verus!
