//! The validating core of a double-entry bookkeeping ledger: transactions
//! whose entries must net to zero, kept in an append-only in-memory record.

pub mod decimal;
pub mod ledger;

pub use crate::ledger::Engine;
pub use crate::ledger::Entry;
pub use crate::ledger::Transaction;
pub use crate::ledger::ValidationError;
