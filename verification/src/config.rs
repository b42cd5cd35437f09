//! The platform configuration singleton.
//!
//! [`PlatformConfig`] names the three authorities the rest of the core reads:
//! the admin (the only identity allowed to mutate the record), the swap
//! executor (the only identity allowed to trigger swaps), and the address of
//! the external swap-routing engine. [`ConfigStore`] models the host's storage
//! slot for the singleton: empty until [`initialize`] creates the record, and
//! refusing a second creation the way the host refuses to re-create an account
//! at an address already in use.

use vstd::prelude::*;
use crate::errors::{ErrorCode, HostError};
use crate::identity::{Identity, CONFIG_DERIVATION_TAG};

verus! {

/// The singleton platform configuration record.
#[derive(Clone, Copy, PartialEq, Eq, Structural, Debug)]
pub struct PlatformConfig {
    /// The identity permitted to mutate this record.
    pub admin_authority: Identity,
    /// The identity permitted to trigger swaps on any delegating user's behalf.
    pub swap_executor_authority: Identity,
    /// The address of the external swap-routing engine.
    pub swap_engine_address: Identity,
    /// The derivation salt under which the record is stored.
    pub derivation_tag: u8,
}

/// The host's storage slot for the configuration singleton: at most one record
/// per deployment, at a deterministic address.
pub struct ConfigStore {
    pub config: Option<PlatformConfig>,
}

impl ConfigStore {
    /// Whether the singleton has been created.
    pub open spec fn is_initialized(self) -> bool {
        self.config is Some
    }

    /// The current configuration record.
    pub open spec fn current(self) -> PlatformConfig
        recommends
            self.is_initialized(),
    {
        match self.config {
            Some(c) => c,
            None => PlatformConfig {
                admin_authority: Identity { hi: 0, lo: 0 },
                swap_executor_authority: Identity { hi: 0, lo: 0 },
                swap_engine_address: Identity { hi: 0, lo: 0 },
                derivation_tag: 0,
            },
        }
    }

    /// An empty store, as a deployment starts.
    pub fn new() -> (r: Self)
        ensures
            !r.is_initialized(),
    {
        ConfigStore { config: None }
    }
}

/// The accounts of an `initialize` call: the payer signs and funds the
/// creation of the record, and holds no authority over it afterwards.
pub struct Initialize {
    pub payer: Identity,
}

/// The accounts of an `update_config` call: the claimed admin, whose signature
/// the host has verified before the core runs.
pub struct UpdateConfig {
    pub admin: Identity,
}

/// A configuration record with a partial update applied: each field supplied
/// as `Some` is replaced, each field supplied as `None` is left exactly as it
/// was, and the derivation salt never changes.
pub open spec fn spec_updated_config(
    c: PlatformConfig,
    new_admin_authority: Option<Identity>,
    new_swap_executor_authority: Option<Identity>,
    new_swap_engine_address: Option<Identity>,
) -> PlatformConfig {
    PlatformConfig {
        admin_authority: match new_admin_authority {
            Some(a) => a,
            None => c.admin_authority,
        },
        swap_executor_authority: match new_swap_executor_authority {
            Some(e) => e,
            None => c.swap_executor_authority,
        },
        swap_engine_address: match new_swap_engine_address {
            Some(j) => j,
            None => c.swap_engine_address,
        },
        derivation_tag: c.derivation_tag,
    }
}

/// Creates the configuration singleton.
///
/// Succeeds exactly once per deployment: a second call finds the address in
/// use and fails without touching the stored record. No authorization is
/// checked here; whoever seeds the deployment names the initial authorities.
pub fn initialize(
    store: &mut ConfigStore,
    ctx: Initialize,
    admin_authority: Identity,
    swap_executor_authority: Identity,
    swap_engine_address: Identity,
) -> (r: Result<(), HostError>)
    ensures
        r is Ok <==> !old(store).is_initialized(),
        r is Err ==> r == Err::<(), HostError>(HostError::AccountInUse) && *final(store) == *old(
            store,
        ),
        r is Ok ==> final(store).config == Some(
            PlatformConfig {
                admin_authority,
                swap_executor_authority,
                swap_engine_address,
                derivation_tag: CONFIG_DERIVATION_TAG,
            },
        ),
{
    let _ = ctx;
    if store.config.is_some() {
        return Err(HostError::AccountInUse);
    }
    store.config = Some(
        PlatformConfig {
            admin_authority,
            swap_executor_authority,
            swap_engine_address,
            derivation_tag: CONFIG_DERIVATION_TAG,
        },
    );
    Ok(())
}

/// Applies a partial update to the configuration singleton.
///
/// Each of the three new values is independently optional; an omitted value
/// leaves its field exactly as it was. Only the current admin may update:
/// any other signer fails `Unauthorized` and mutates nothing. No validation
/// is performed on the new values themselves.
pub fn update_config(
    store: &mut ConfigStore,
    ctx: UpdateConfig,
    new_admin_authority: Option<Identity>,
    new_swap_executor_authority: Option<Identity>,
    new_swap_engine_address: Option<Identity>,
) -> (r: Result<(), ErrorCode>)
    requires
        old(store).is_initialized(),
    ensures
        r is Ok <==> ctx.admin == old(store).current().admin_authority,
        r is Err ==> r == Err::<(), ErrorCode>(ErrorCode::Unauthorized) && *final(store) == *old(
            store,
        ),
        r is Ok ==> final(store).config == Some(
            spec_updated_config(
                old(store).current(),
                new_admin_authority,
                new_swap_executor_authority,
                new_swap_engine_address,
            ),
        ),
{
    let current = store.config.unwrap();
    if ctx.admin != current.admin_authority {
        return Err(ErrorCode::Unauthorized);
    }
    let mut updated = current;
    if let Some(a) = new_admin_authority {
        updated.admin_authority = a;
    }
    if let Some(e) = new_swap_executor_authority {
        updated.swap_executor_authority = e;
    }
    if let Some(j) = new_swap_engine_address {
        updated.swap_engine_address = j;
    }
    store.config = Some(updated);
    Ok(())
}

} // verus!
