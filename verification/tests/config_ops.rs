use memeflow_contract::config::{initialize, update_config, ConfigStore, Initialize, UpdateConfig};
use memeflow_contract::errors::{ErrorCode, HostError};
use memeflow_contract::identity::{Identity, CONFIG_DERIVATION_TAG};

fn id(n: u128) -> Identity {
    Identity { hi: n, lo: n.wrapping_mul(7) }
}

fn seeded() -> ConfigStore {
    let mut store = ConfigStore::new();
    initialize(&mut store, Initialize { payer: id(99) }, id(1), id(2), id(3)).unwrap();
    store
}

#[test]
fn initialize_creates_the_singleton() {
    let store = seeded();
    let config = store.config.unwrap();
    assert_eq!(config.admin_authority, id(1));
    assert_eq!(config.swap_executor_authority, id(2));
    assert_eq!(config.swap_engine_address, id(3));
    assert_eq!(config.derivation_tag, CONFIG_DERIVATION_TAG);
}

#[test]
fn initialize_twice_fails_account_in_use() {
    let mut store = seeded();
    let before = store.config.unwrap();
    let r = initialize(&mut store, Initialize { payer: id(98) }, id(4), id(5), id(6));
    assert_eq!(r, Err(HostError::AccountInUse));
    assert_eq!(store.config.unwrap(), before);
}

#[test]
fn partial_update_covers_every_subset() {
    for mask in 0u8..8 {
        let mut store = seeded();
        let before = store.config.unwrap();
        let new_admin = if mask & 1 != 0 { Some(id(11)) } else { None };
        let new_executor = if mask & 2 != 0 { Some(id(12)) } else { None };
        let new_engine = if mask & 4 != 0 { Some(id(13)) } else { None };
        let r = update_config(
            &mut store,
            UpdateConfig { admin: id(1) },
            new_admin,
            new_executor,
            new_engine,
        );
        assert!(r.is_ok());
        let after = store.config.unwrap();
        assert_eq!(
            after.admin_authority,
            if mask & 1 != 0 { id(11) } else { before.admin_authority }
        );
        assert_eq!(
            after.swap_executor_authority,
            if mask & 2 != 0 { id(12) } else { before.swap_executor_authority }
        );
        assert_eq!(
            after.swap_engine_address,
            if mask & 4 != 0 { id(13) } else { before.swap_engine_address }
        );
        assert_eq!(after.derivation_tag, before.derivation_tag);
    }
}

#[test]
fn update_by_non_admin_fails_unauthorized_and_mutates_nothing() {
    let mut store = seeded();
    let before = store.config.unwrap();
    let r = update_config(
        &mut store,
        UpdateConfig { admin: id(2) },
        Some(id(11)),
        Some(id(12)),
        Some(id(13)),
    );
    assert_eq!(r, Err(ErrorCode::Unauthorized));
    assert_eq!(store.config.unwrap(), before);
}

#[test]
fn admin_handover_transfers_update_rights() {
    let mut store = seeded();
    let r = update_config(&mut store, UpdateConfig { admin: id(1) }, Some(id(20)), None, None);
    assert!(r.is_ok());
    let r = update_config(&mut store, UpdateConfig { admin: id(1) }, None, Some(id(21)), None);
    assert_eq!(r, Err(ErrorCode::Unauthorized));
    let r = update_config(&mut store, UpdateConfig { admin: id(20) }, None, Some(id(21)), None);
    assert!(r.is_ok());
    assert_eq!(store.config.unwrap().swap_executor_authority, id(21));
}
