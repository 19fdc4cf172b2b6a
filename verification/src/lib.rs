//! A single-process ledger that loads, executes and commits account-based
//! transactions one at a time.
//!
//! The [`bank`] holds the state: the account store, the clock of slots and
//! blockhashes, and the ledger of committed transactions. A transaction is
//! loaded ([`load`], with the loader chains of [`loader`]), handed to an
//! execution [`engine`], and committed or dropped as a whole. The [`fee`] of
//! a message follows from its shape alone.

pub mod account;
pub mod address;
pub mod bank;
pub mod engine;
pub mod error;
pub mod fee;
pub mod ledger;
pub mod load;
pub mod loader;
pub mod message;
pub mod sdk;
pub mod store;
pub mod sysvar;
