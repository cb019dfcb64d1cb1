//! Core of a small ledger service: a fixed population of accounts, each with
//! a credit limit and a running balance, and an append-only record of the
//! credit/debit transactions applied to each account.
//!
//! The balance mutation engine validates and applies a signed balance delta
//! while keeping the invariant `balance >= -credit_limit`; the statement
//! reader returns a consistent snapshot of balance, limit and the ten most
//! recent transactions, newest first.

pub mod account;
pub mod domain;
pub mod engine;
pub mod error;
pub mod store;
