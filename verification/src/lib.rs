//! Classification of blockchain blocks into events and signals.
//!
//! A block is held against a small catalogue of known on-chain behaviours.
//! Each classifier scans the block's transactions in chain order and
//! reports at most one finding: the first transaction that qualifies.
//!
//! - [`types`] holds the typed view of a block, the classifiers, their
//!   reports, and the laws that hold of every block.
//! - [`sol`] decodes the call data of the one contract call that the
//!   classifiers know.
//! - [`hex`], [`text`] and [`address`] read and write the texts that the
//!   chain's documents are made of.
//! - [`api`] makes the requests that the chain is asked with.
//!
//! The crate reads no file and opens no connection. Whoever drives it hands
//! in the block and the watchlists, and fetches the receipts that a
//! classifier asks for.

pub mod address;
pub mod api;
pub mod hex;
pub mod sol;
pub mod text;
pub mod types;

/// The set of strings that watchlists are kept in.
pub use vstd::hash_set::StringHashSet;
