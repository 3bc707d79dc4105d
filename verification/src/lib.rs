//! A small in-memory ledger: a fixed set of accounts, each with an immutable
//! overdraft limit and a balance that must never fall below the negative of
//! that limit. Transactions (credits and debits) are validated and applied
//! atomically; a statement reports the balance together with the ten most
//! recent transactions, newest first.
//!
//! The pieces: [`validate`] checks the shape of a raw request, [`account`]
//! applies one transaction to one account and snapshots it, [`ledger`]
//! composes them into the store with exact pre/post-state contracts, and
//! [`store`] offers the same operations behind one reader-writer lock per
//! account, so that concurrent callers serialize per account and reads never
//! observe a half-applied mutation. [`laws`] states and proves the
//! properties that span several operations.

pub mod account;
pub mod laws;
pub mod ledger;
pub mod store;
pub mod types;
pub mod validate;
