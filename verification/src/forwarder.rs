//! The swap forwarder: builds the outbound call to the external swap engine.
//!
//! On admission by the authorization gate, the forwarder assembles a call
//! descriptor addressed to the engine named by the configuration, whose
//! account list is exactly the caller-supplied metadata — each entry's signer
//! and writability flags taken verbatim — and whose payload is the caller's
//! route bytes, treated as an uninterpreted blob. The forwarder mutates
//! nothing; its only product is the descriptor the host then invokes.
//!
//! Two deliberate weak points of the design are preserved exactly, not fixed:
//! the caller-claimed account flags are never validated against the engine's
//! real expected account layout, and `minimum_output_amount` is accepted as a
//! documented slippage floor but never compared against any actual output —
//! any enforcement must happen inside the engine itself.

use vstd::prelude::*;
use crate::config::PlatformConfig;
use crate::delegation::DelegatedAuthority;
use crate::errors::ErrorCode;
use crate::gate::{check_authorization, gate_error, gate_passes};
use crate::identity::Identity;

verus! {

/// One entry of an outbound call's account list: an address with the
/// caller-claimed signer and writability flags.
#[derive(Clone, Copy, PartialEq, Eq, Structural, Debug)]
pub struct AccountMeta {
    pub address: Identity,
    pub is_signer: bool,
    pub is_writable: bool,
}

/// An outbound call descriptor for the external swap engine: the engine's
/// address, the account list, and the opaque route payload.
#[derive(Debug)]
pub struct SwapCall {
    pub program_address: Identity,
    pub accounts: Vec<AccountMeta>,
    pub data: Vec<u8>,
}

/// The accounts of an `execute_swap` call: the claimed executor, whose
/// signature the host has verified before the core runs.
pub struct ExecuteSwapAccounts {
    pub swap_executor: Identity,
}

/// Vets a swap request and, on admission, builds the outbound call.
///
/// Succeeds exactly when the three gate conditions hold of `config`, `record`
/// and the signing executor; any single failure aborts with that check's
/// classification before anything is built, and nothing is ever mutated. The
/// descriptor is addressed to the engine named by `config`, carries the
/// caller's account entries verbatim — flags included, unvalidated — and
/// carries `route_payload` verbatim. `input_amount` and
/// `minimum_output_amount` are accepted for the host to log but are not
/// enforced here.
pub fn execute_swap(
    config: &PlatformConfig,
    record: &DelegatedAuthority,
    ctx: ExecuteSwapAccounts,
    input_amount: u64,
    minimum_output_amount: u64,
    route_payload: Vec<u8>,
    extra_accounts: &Vec<AccountMeta>,
) -> (r: Result<SwapCall, ErrorCode>)
    ensures
        r is Ok <==> gate_passes(*config, *record, ctx.swap_executor),
        r is Err ==> r == Err::<SwapCall, ErrorCode>(
            gate_error(*config, *record, ctx.swap_executor),
        ),
        r matches Ok(call) ==> {
            &&& call.program_address == config.swap_engine_address
            &&& call.accounts@ == extra_accounts@
            &&& call.data@ == route_payload@
        },
{
    let _ = input_amount;
    let _ = minimum_output_amount;
    match check_authorization(config, record, ctx.swap_executor) {
        Ok(()) => {},
        Err(e) => {
            return Err(e);
        },
    }
    let mut accounts: Vec<AccountMeta> = Vec::new();
    let mut i: usize = 0;
    while i < extra_accounts.len()
        invariant
            i <= extra_accounts@.len(),
            accounts@.len() == i,
            forall|k: int| 0 <= k < i ==> accounts@[k] == extra_accounts@[k],
        decreases extra_accounts@.len() - i,
    {
        accounts.push(extra_accounts[i]);
        i += 1;
    }
    proof {
        assert(accounts@ =~= extra_accounts@);
    }
    Ok(SwapCall { program_address: config.swap_engine_address, accounts, data: route_payload })
}

} // verus!
