//! Failure classifications.
//!
//! The core distinguishes its own two authorization failures from failures
//! propagated by the hosting ledger environment. Every failure aborts the
//! whole call atomically: a function that returns an error leaves every record
//! it was handed unchanged.

use vstd::prelude::*;

verus! {

/// Failures raised by the core's own authorization checks.
#[derive(Clone, Copy, PartialEq, Eq, Structural, Debug)]
pub enum ErrorCode {
    /// The signer does not match the required authority: the admin mismatch in
    /// a configuration update, the ownership mismatch in a revocation, or an
    /// executor mismatch in the authorization gate.
    Unauthorized,
    /// The authorization gate targeted a delegation record whose owner has
    /// revoked it.
    DelegationInactive,
}

/// Failures of the hosting ledger environment, surfaced verbatim and never
/// reinterpreted by the core.
#[derive(Clone, Copy, PartialEq, Eq, Structural, Debug)]
pub enum HostError {
    /// A record was to be created at a deterministic address that is already
    /// in use: the configuration singleton was initialized twice.
    AccountInUse,
}

} // verus!
