//! Call shapes of the token-approval subsystem.
//!
//! Delegation and revocation each end in one outbound call to the token
//! subsystem. The core only decides and describes that call; the host issues
//! it and aborts the whole operation atomically if the subsystem rejects it.

use vstd::prelude::*;
use crate::identity::Identity;

verus! {

/// One outbound call to the token-approval subsystem.
#[derive(Clone, Copy, PartialEq, Eq, Structural, Debug)]
pub enum TokenInstruction {
    /// Grant `delegate` the right to spend up to `amount` tokens from
    /// `token_account`, signed by `owner`. An `amount` of `u64::MAX` is a
    /// standing, effectively unlimited approval that lasts until revoked.
    Approve { token_account: Identity, delegate: Identity, owner: Identity, amount: u64 },
    /// Fully revoke whatever approval is outstanding on `token_account`,
    /// signed by `owner`.
    Revoke { token_account: Identity, owner: Identity },
}

} // verus!
