//! The balance mutation engine's decision logic: validate a proposed
//! transaction against an account's balance and credit limit, and compute
//! the new balance, without touching any store.
//!
//! Keeping the decision a pure function lets the store (in-memory here, or a
//! database driven by unverified plumbing) run it inside one atomic
//! read-check-write unit per account.

use vstd::prelude::*;
use vstd::string::*;

use crate::domain::{valid_amount, valid_description, TxKind, MAX_DESCRIPTION_LEN};
use crate::error::Error;

verus! {

/// How the wire spells each transaction kind: `"credit"` or `"debit"`;
/// anything else is invalid input.
pub open spec fn parse_kind_spec(kind: Seq<char>) -> Option<TxKind> {
    if kind == "credit"@ {
        Some(TxKind::Credit)
    } else if kind == "debit"@ {
        Some(TxKind::Debit)
    } else {
        None
    }
}

/// Character-by-character string equality.
fn str_eq(a: &str, b: &str) -> (r: bool)
    ensures
        r == (a@ == b@),
{
    let a_len = a.unicode_len();
    let b_len = b.unicode_len();
    if a_len != b_len {
        return false;
    }
    let mut i: usize = 0;
    while i < a_len
        invariant
            i <= a_len,
            a_len == a@.len(),
            a_len == b@.len(),
            forall|j: int| 0 <= j < i ==> a@[j] == b@[j],
        decreases a_len - i,
    {
        if a.get_char(i) != b.get_char(i) {
            return false;
        }
        i = i + 1;
    }
    proof {
        assert(a@ =~= b@);
    }
    true
}

/// Parses a transaction kind from its wire spelling.
pub fn parse_kind(kind: &str) -> (r: Option<TxKind>)
    ensures
        r == parse_kind_spec(kind@),
{
    if str_eq(kind, "credit") {
        Some(TxKind::Credit)
    } else if str_eq(kind, "debit") {
        Some(TxKind::Debit)
    } else {
        None
    }
}

/// The engine's decision for an already-parsed kind, over unbounded
/// integers: reject an invalid description or amount as `InvalidInput`,
/// reject a debit that would push the balance below `-credit_limit` as
/// `LimitExceeded`, reject a credit whose result the store could not
/// represent as `InvalidInput`, and otherwise return the new balance.
pub open spec fn decide_spec(
    balance: int,
    credit_limit: int,
    kind: TxKind,
    amount: int,
    description: Seq<char>,
) -> Result<int, Error> {
    if !valid_description(description) {
        Err(Error::InvalidInput)
    } else if !valid_amount(amount) {
        Err(Error::InvalidInput)
    } else {
        match kind {
            TxKind::Debit => {
                if balance - amount < -credit_limit {
                    Err(Error::LimitExceeded)
                } else {
                    Ok(balance - amount)
                }
            },
            TxKind::Credit => {
                if balance + amount > i32::MAX {
                    Err(Error::InvalidInput)
                } else {
                    Ok(balance + amount)
                }
            },
        }
    }
}

/// The whole decision as seen at the boundary, kind still a string.
/// Checks come in the fixed order: description, then kind, then amount,
/// then the limit; the first failure wins.
pub open spec fn apply_decision(
    balance: int,
    credit_limit: int,
    kind: Seq<char>,
    amount: int,
    description: Seq<char>,
) -> Result<int, Error> {
    if !valid_description(description) {
        Err(Error::InvalidInput)
    } else {
        match parse_kind_spec(kind) {
            None => Err(Error::InvalidInput),
            Some(k) => decide_spec(balance, credit_limit, k, amount, description),
        }
    }
}

/// An executable `Result` over `i32`, read as its mathematical counterpart.
pub open spec fn res_view(r: Result<i32, Error>) -> Result<int, Error> {
    match r {
        Ok(v) => Ok(v as int),
        Err(e) => Err(e),
    }
}

/// Validates a proposed transaction and computes the new balance, exactly
/// as `apply_decision` says.
pub fn decide(
    balance: i32,
    credit_limit: i32,
    kind: &str,
    amount: i32,
    description: &str,
) -> (r: Result<i32, Error>)
    ensures
        res_view(r) == apply_decision(
            balance as int,
            credit_limit as int,
            kind@,
            amount as int,
            description@,
        ),
{
    let description_len = description.unicode_len();
    if description_len < 1 || description_len > MAX_DESCRIPTION_LEN {
        return Err(Error::InvalidInput);
    }
    let parsed = match parse_kind(kind) {
        None => {
            return Err(Error::InvalidInput);
        },
        Some(k) => k,
    };
    if amount < 1 {
        return Err(Error::InvalidInput);
    }
    match parsed {
        TxKind::Debit => {
            let candidate = balance as i64 - amount as i64;
            if candidate < -(credit_limit as i64) {
                Err(Error::LimitExceeded)
            } else {
                Ok(candidate as i32)
            }
        },
        TxKind::Credit => {
            let candidate = balance as i64 + amount as i64;
            if candidate > i32::MAX as i64 {
                Err(Error::InvalidInput)
            } else {
                Ok(candidate as i32)
            }
        },
    }
}

/// Outcome of presenting `n` one-unit debits to the engine one after the
/// other, as the per-account atomic unit serializes concurrent callers:
/// each debit sees the balance left by every earlier committed one. Returns
/// the final balance and how many of the debits succeeded.
pub open spec fn run_unit_debits(
    balance: int,
    credit_limit: int,
    description: Seq<char>,
    n: nat,
) -> (int, nat)
    decreases n,
{
    if n == 0 {
        (balance, 0nat)
    } else {
        match decide_spec(balance, credit_limit, TxKind::Debit, 1, description) {
            Ok(new_balance) => {
                let rest = run_unit_debits(new_balance, credit_limit, description, (n - 1) as nat);
                (rest.0, (rest.1 + 1) as nat)
            },
            Err(_) => run_unit_debits(balance, credit_limit, description, (n - 1) as nat),
        }
    }
}

/// Serialization correctness under contention: of `n` one-unit debits
/// against an account with balance `balance` and limit `credit_limit`,
/// where `n >= balance + credit_limit`, exactly `balance + credit_limit`
/// succeed — whatever order the atomic units commit in, since every order
/// presents the same `n` identical debits one after the other — the final
/// balance is exactly `-credit_limit`, and every rejected debit was
/// rejected with `LimitExceeded`.
pub proof fn lemma_unit_debit_contention(
    balance: int,
    credit_limit: int,
    description: Seq<char>,
    n: nat,
)
    requires
        0 <= credit_limit,
        -credit_limit <= balance,
        valid_description(description),
        n >= balance + credit_limit,
    ensures
        run_unit_debits(balance, credit_limit, description, n).0 == -credit_limit,
        run_unit_debits(balance, credit_limit, description, n).1 == balance + credit_limit,
        forall|b: int|
            -credit_limit <= b && decide_spec(b, credit_limit, TxKind::Debit, 1, description)
                is Err ==> decide_spec(b, credit_limit, TxKind::Debit, 1, description) == Err::<
                int,
                Error,
            >(Error::LimitExceeded),
    decreases n,
{
    if n > 0 {
        match decide_spec(balance, credit_limit, TxKind::Debit, 1, description) {
            Ok(new_balance) => {
                lemma_unit_debit_contention(new_balance, credit_limit, description, (n - 1) as nat);
            },
            Err(_) => {
                lemma_unit_debit_contention(balance, credit_limit, description, (n - 1) as nat);
            },
        }
    }
}

} // verus!
