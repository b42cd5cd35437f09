//! Laws of the authorization gate and of delegation, stated over the same
//! spec functions that the executable functions' contracts use.
//!
//! The partial-update law and the admin-only law of `update_config`, and the
//! fresh-snapshot law of `delegate_authority`, are stated directly in those
//! functions' `ensures`; this module holds the laws that relate the
//! components to one another.

use vstd::prelude::*;
use crate::config::PlatformConfig;
use crate::delegation::{spec_delegated_record, DelegatedAuthority};
use crate::errors::ErrorCode;
use crate::gate::{gate_error, gate_passes};
use crate::identity::Identity;

verus! {

/// Gate conjunction: the authorization gate admits a request exactly when all three of its
/// conditions hold, so flipping any single one — a caller other than the live
/// executor, an inactive record, or a snapshot naming someone else — makes it
/// reject. `execute_swap` returns `Ok` exactly when the authorization gate admits, and takes
/// every input by shared reference, so a rejected request also mutates
/// nothing.
pub proof fn lemma_gate_conjunction(
    config: PlatformConfig,
    record: DelegatedAuthority,
    caller: Identity,
)
    ensures
        gate_passes(config, record, caller) <==> (caller == config.swap_executor_authority
            && record.is_active && record.allowed_swap_authority == caller),
        caller != config.swap_executor_authority ==> !gate_passes(config, record, caller),
        !record.is_active ==> !gate_passes(config, record, caller),
        record.allowed_swap_authority != caller ==> !gate_passes(config, record, caller),
{
}

/// Revocation: a record that is not active is rejected by the authorization
/// gate, and the rejection is classified `DelegationInactive`, regardless of
/// the caller's identity.
pub proof fn lemma_revoked_record_rejected(
    config: PlatformConfig,
    record: DelegatedAuthority,
    caller: Identity,
)
    requires
        !record.is_active,
    ensures
        !gate_passes(config, record, caller),
        gate_error(config, record, caller) == ErrorCode::DelegationInactive,
{
}

/// Fresh delegation: the record written under a configuration admits that
/// configuration's executor, as long as neither has changed since.
pub proof fn lemma_fresh_delegation_admits_executor(config: PlatformConfig, user: Identity)
    ensures
        gate_passes(
            config,
            spec_delegated_record(config, user),
            config.swap_executor_authority,
        ),
{
}

/// Stale snapshot: once the configuration names a different executor than the
/// one a record snapshotted, the authorization gate rejects every caller against that
/// record — the old executor is no longer the live one, the new executor is
/// not the one the snapshot names, and nobody else is either.
pub proof fn lemma_stale_snapshot_rejected(
    at_delegation: PlatformConfig,
    current: PlatformConfig,
    user: Identity,
    caller: Identity,
)
    requires
        at_delegation.swap_executor_authority != current.swap_executor_authority,
    ensures
        !gate_passes(current, spec_delegated_record(at_delegation, user), caller),
{
}

/// Re-delegation overwrite: the record a delegation writes is a function of
/// the configuration at that instant alone — `delegate_authority` has no
/// precondition on the record's prior state (absent, active, or revoked) and
/// pins the new record completely — so delegating again refreshes the
/// snapshot to the current executor with no intervening revoke.
pub proof fn lemma_redelegation_refreshes_snapshot(config: PlatformConfig, user: Identity)
    ensures
        spec_delegated_record(config, user).is_active,
        spec_delegated_record(config, user).allowed_swap_authority
            == config.swap_executor_authority,
        spec_delegated_record(config, user).user == user,
{
}

} // verus!
