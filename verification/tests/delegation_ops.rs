use memeflow_contract::config::PlatformConfig;
use memeflow_contract::delegation::{
    delegate_authority, revoke_authority, DelegateAuthorityAccounts, DelegationRegistry,
    RevokeAuthorityAccounts,
};
use memeflow_contract::identity::{
    derive_config_address, derive_delegation_address, Identity, CONFIG_DERIVATION_TAG,
    DELEGATION_DERIVATION_TAG,
};
use memeflow_contract::token::TokenInstruction;

fn id(n: u128) -> Identity {
    Identity { hi: n, lo: n.wrapping_mul(7) }
}

fn config_with_executor(executor: Identity) -> PlatformConfig {
    PlatformConfig {
        admin_authority: id(1),
        swap_executor_authority: executor,
        swap_engine_address: id(3),
        derivation_tag: CONFIG_DERIVATION_TAG,
    }
}

#[test]
fn delegation_writes_active_record_with_fresh_snapshot() {
    let config = config_with_executor(id(2));
    let mut registry = DelegationRegistry::new();
    let instruction = delegate_authority(
        &mut registry,
        &config,
        DelegateAuthorityAccounts { user: id(9), user_token_account: id(10) },
        500,
    );
    let record = registry.find(id(9)).unwrap();
    assert_eq!(record.user, id(9));
    assert!(record.is_active);
    assert_eq!(record.allowed_swap_authority, id(2));
    assert_eq!(record.derivation_tag, DELEGATION_DERIVATION_TAG);
    assert_eq!(
        instruction,
        TokenInstruction::Approve {
            token_account: id(10),
            delegate: id(2),
            owner: id(9),
            amount: 500,
        }
    );
}

#[test]
fn delegation_may_grant_an_unlimited_standing_approval() {
    let config = config_with_executor(id(2));
    let mut registry = DelegationRegistry::new();
    let instruction = delegate_authority(
        &mut registry,
        &config,
        DelegateAuthorityAccounts { user: id(9), user_token_account: id(10) },
        u64::MAX,
    );
    assert_eq!(
        instruction,
        TokenInstruction::Approve {
            token_account: id(10),
            delegate: id(2),
            owner: id(9),
            amount: u64::MAX,
        }
    );
}

#[test]
fn redelegation_refreshes_the_snapshot_without_a_revoke() {
    let mut registry = DelegationRegistry::new();
    let ctx = DelegateAuthorityAccounts { user: id(9), user_token_account: id(10) };
    delegate_authority(&mut registry, &config_with_executor(id(2)), ctx, 500);
    assert!(registry.find(id(9)).unwrap().is_active);

    let ctx = DelegateAuthorityAccounts { user: id(9), user_token_account: id(10) };
    delegate_authority(&mut registry, &config_with_executor(id(4)), ctx, 700);
    let record = registry.find(id(9)).unwrap();
    assert!(record.is_active);
    assert_eq!(record.allowed_swap_authority, id(4));
}

#[test]
fn revocation_deactivates_and_fully_revokes_the_approval() {
    let config = config_with_executor(id(2));
    let mut registry = DelegationRegistry::new();
    delegate_authority(
        &mut registry,
        &config,
        DelegateAuthorityAccounts { user: id(9), user_token_account: id(10) },
        500,
    );
    let r = revoke_authority(
        &mut registry,
        RevokeAuthorityAccounts { user: id(9), user_token_account: id(10) },
    );
    assert_eq!(
        r,
        Ok(TokenInstruction::Revoke { token_account: id(10), owner: id(9) })
    );
    let record = registry.find(id(9)).unwrap();
    assert!(!record.is_active);
    assert_eq!(record.user, id(9));
    assert_eq!(record.allowed_swap_authority, id(2));
}

#[test]
fn delegation_after_revocation_reactivates_in_place() {
    let mut registry = DelegationRegistry::new();
    let ctx = DelegateAuthorityAccounts { user: id(9), user_token_account: id(10) };
    delegate_authority(&mut registry, &config_with_executor(id(2)), ctx, 500);
    revoke_authority(
        &mut registry,
        RevokeAuthorityAccounts { user: id(9), user_token_account: id(10) },
    )
    .unwrap();
    let ctx = DelegateAuthorityAccounts { user: id(9), user_token_account: id(10) };
    delegate_authority(&mut registry, &config_with_executor(id(5)), ctx, 600);
    let record = registry.find(id(9)).unwrap();
    assert!(record.is_active);
    assert_eq!(record.allowed_swap_authority, id(5));
    assert_eq!(registry.records.len(), 1);
}

#[test]
fn each_user_keeps_an_independent_record() {
    let config = config_with_executor(id(2));
    let mut registry = DelegationRegistry::new();
    delegate_authority(
        &mut registry,
        &config,
        DelegateAuthorityAccounts { user: id(9), user_token_account: id(10) },
        500,
    );
    delegate_authority(
        &mut registry,
        &config,
        DelegateAuthorityAccounts { user: id(11), user_token_account: id(12) },
        600,
    );
    revoke_authority(
        &mut registry,
        RevokeAuthorityAccounts { user: id(9), user_token_account: id(10) },
    )
    .unwrap();
    assert!(!registry.find(id(9)).unwrap().is_active);
    let other = registry.find(id(11)).unwrap();
    assert!(other.is_active);
    assert_eq!(other.allowed_swap_authority, id(2));
    assert_eq!(registry.records.len(), 2);
}

#[test]
fn an_absent_user_has_no_record() {
    let registry = DelegationRegistry::new();
    assert!(registry.find(id(9)).is_none());
}

#[test]
fn storage_addresses_are_deterministic_and_disjoint() {
    assert_eq!(derive_config_address(), derive_config_address());
    assert_eq!(derive_delegation_address(id(9)), derive_delegation_address(id(9)));
    assert_ne!(derive_delegation_address(id(9)), derive_delegation_address(id(11)));
    assert_ne!(derive_config_address(), derive_delegation_address(id(9)));
    assert_eq!(derive_config_address().tag, CONFIG_DERIVATION_TAG);
    assert_eq!(derive_delegation_address(id(9)).tag, DELEGATION_DERIVATION_TAG);
    assert_eq!(derive_delegation_address(id(9)).key, id(9));
}
