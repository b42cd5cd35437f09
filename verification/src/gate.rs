//! The three-way authorization gate.
//!
//! A stateless predicate evaluated immediately before any swap is forwarded:
//! the caller must be the executor currently named by the configuration (read
//! live, not cached), the targeted delegation record must be active, and the
//! record's snapshotted executor must equal the caller. All three must hold at
//! once. An inactive record is classified `DelegationInactive` whatever the
//! caller's identity; either identity mismatch against an active record is
//! classified `Unauthorized`.

use vstd::prelude::*;
use crate::config::PlatformConfig;
use crate::delegation::DelegatedAuthority;
use crate::errors::ErrorCode;
use crate::identity::Identity;

verus! {

/// Whether the authorization gate admits `caller` to swap against `record`
/// under `config`: the conjunction of the three conditions, and nothing
/// weaker.
pub open spec fn gate_passes(
    config: PlatformConfig,
    record: DelegatedAuthority,
    caller: Identity,
) -> bool {
    &&& caller == config.swap_executor_authority
    &&& record.is_active
    &&& record.allowed_swap_authority == caller
}

/// How a rejected request is classified: targeting an inactive record is
/// `DelegationInactive`, regardless of who signed; a caller whom an active
/// record or the live configuration does not name is `Unauthorized`.
pub open spec fn gate_error(
    config: PlatformConfig,
    record: DelegatedAuthority,
    caller: Identity,
) -> ErrorCode
    recommends
        !gate_passes(config, record, caller),
{
    if !record.is_active {
        ErrorCode::DelegationInactive
    } else {
        ErrorCode::Unauthorized
    }
}

/// Evaluates the authorization gate. Read-only: admits or classifies, and
/// never mutates.
pub fn check_authorization(
    config: &PlatformConfig,
    record: &DelegatedAuthority,
    caller: Identity,
) -> (r: Result<(), ErrorCode>)
    ensures
        r is Ok <==> gate_passes(*config, *record, caller),
        r is Err ==> r == Err::<(), ErrorCode>(gate_error(*config, *record, caller)),
{
    if !record.is_active {
        return Err(ErrorCode::DelegationInactive);
    }
    if caller != config.swap_executor_authority {
        return Err(ErrorCode::Unauthorized);
    }
    if record.allowed_swap_authority != caller {
        return Err(ErrorCode::Unauthorized);
    }
    Ok(())
}

} // verus!
