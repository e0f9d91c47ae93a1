//! Supply-chain tracking for a physical asset that moves through a fixed
//! lifecycle: a strict linear state machine, a flat role-based access-control
//! layer, an append-only history log that always agrees with the current
//! state, and a keyed registry of seed records.
//!
//! Identities are opaque, equality-comparable principals, modelled here as
//! `u64` account numbers. Timestamps are supplied by the caller, since the
//! clock belongs to the host environment, not to this logic.

pub mod contract;
pub mod history;
pub mod lifecycle;
pub mod metadata;
pub mod nft;
pub mod registry;
pub mod roles;
pub mod seed_data;
pub mod seed_registry;
