//! An admin-gated catalog of priced items with an atomic purchase operation.
//!
//! The catalog consists of a singleton store record (the root of trust for
//! all mutation authorization) and a registry of independently stored priced
//! items. The host runtime that would persist these records, verify caller
//! identities and move value between accounts is modeled here as explicit
//! state threaded through every operation: a store slot, a slot registry,
//! ledger accounts and an append-only event log.

pub mod errors;
pub mod state;
pub mod ledger;
pub mod transitions;
pub mod shop;
pub mod laws;
