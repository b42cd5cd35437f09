//! An on-ledger authorization and delegation layer: a user grants a designated
//! swap executor limited, revocable rights to move the user's tokens through an
//! external swap-routing engine, without co-signing each trade.
//!
//! The host ledger environment (account storage, signer verification, atomic
//! commit of each call) and the outbound calls themselves (token approvals,
//! the swap-engine invocation) live outside this crate; the crate owns the
//! configuration record, the per-user delegation registry, the three-way
//! authorization gate, and the builder for the outbound swap call.

pub mod config;
pub mod delegation;
pub mod errors;
pub mod forwarder;
pub mod gate;
pub mod identity;
pub mod laws;
pub mod token;

pub use identity::Identity;
