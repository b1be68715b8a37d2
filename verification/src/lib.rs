//! Custody vaults for fungible tokens on a programmable ledger.
//!
//! A vault belongs to one controlling authority and lives at an address that
//! is derived from a fixed domain tag and that authority's identifier. The
//! crate decides who may move which funds and keeps the books; moving the
//! tokens themselves is left to the host's transfer primitive.
//!
//! Two kinds of vault are offered. A vault of [`ledger`] keeps its own books
//! of token types and balances and lets anyone withdraw but its authority. A
//! vault of [`delegated`] is itself the token-holding account, keeps no books
//! and lets only its authority withdraw.
//!
//! The host is expected to run one operation on a vault at a time and to
//! discard whatever a failed operation did.

pub mod address;
pub mod error;
pub mod policy;
pub mod vault;
pub mod transfer;
pub mod ledger;
pub mod instruction;
pub mod delegated;
