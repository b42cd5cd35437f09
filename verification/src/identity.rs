//! Identities and deterministic storage addressing.
//!
//! An [`Identity`] stands for a 32-byte ledger identity (an account owner, the
//! platform admin, the swap executor, or the address of an on-ledger program),
//! held as two 128-bit halves so that equality of identities is plain
//! structural equality of integers.
//!
//! Every record this crate owns lives at a deterministic storage address: a
//! salt (derivation tag) paired with a key identity. The configuration record
//! lives at the address derived from a fixed constant tag alone; each user's
//! delegation record lives at the address derived from the delegation tag plus
//! the user's identity. The derivation is injective in the user, which is what
//! makes "at most one live delegation record per user" an addressing fact
//! rather than a convention.

use vstd::prelude::*;

verus! {

/// A 32-byte ledger identity, split into a high and a low 128-bit half.
#[derive(Clone, Copy, PartialEq, Eq, Structural, Debug)]
pub struct Identity {
    pub hi: u128,
    pub lo: u128,
}

/// Derivation salt of the singleton configuration record.
pub const CONFIG_DERIVATION_TAG: u8 = 1;

/// Derivation salt of per-user delegation records.
pub const DELEGATION_DERIVATION_TAG: u8 = 2;

/// A deterministic storage address: a derivation salt paired with a key
/// identity. The host recomputes the address of every record it loads, so a
/// caller can never substitute a record stored under a different key.
#[derive(Clone, Copy, PartialEq, Eq, Structural, Debug)]
pub struct StorageAddress {
    pub tag: u8,
    pub key: Identity,
}

/// The identity with all bytes zero, used as the key of records that are not
/// keyed by any particular identity.
pub open spec fn spec_zero_identity() -> Identity {
    Identity { hi: 0, lo: 0 }
}

/// Address of the singleton configuration record: derived from the fixed
/// configuration tag alone.
pub open spec fn spec_config_address() -> StorageAddress {
    StorageAddress { tag: CONFIG_DERIVATION_TAG, key: spec_zero_identity() }
}

/// Address of a user's delegation record: derived from the delegation tag
/// plus the user's identity.
pub open spec fn spec_delegation_address(user: Identity) -> StorageAddress {
    StorageAddress { tag: DELEGATION_DERIVATION_TAG, key: user }
}

/// Computes the address of the singleton configuration record.
pub fn derive_config_address() -> (r: StorageAddress)
    ensures
        r == spec_config_address(),
{
    StorageAddress { tag: CONFIG_DERIVATION_TAG, key: Identity { hi: 0, lo: 0 } }
}

/// Computes the address of the delegation record owned by `user`.
pub fn derive_delegation_address(user: Identity) -> (r: StorageAddress)
    ensures
        r == spec_delegation_address(user),
{
    StorageAddress { tag: DELEGATION_DERIVATION_TAG, key: user }
}

/// Delegation addressing is injective: two users share a delegation address
/// only if they are the same user, so each user has at most one record slot.
pub proof fn lemma_delegation_address_injective(a: Identity, b: Identity)
    ensures
        spec_delegation_address(a) == spec_delegation_address(b) <==> a == b,
{
}

/// The configuration record can never collide with a delegation record: the
/// two address spaces are separated by their derivation tags.
pub proof fn lemma_address_spaces_disjoint(user: Identity)
    ensures
        spec_config_address() != spec_delegation_address(user),
{
}

} // verus!
