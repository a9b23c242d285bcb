use iron_vault::constants::{
    ESCROW_SEED, ESCROW_TOKEN_SEED, INITIAL_SCHEMA_VERSION, KNOWN_PAUSE_FLAGS, KNOWN_PERMISSIONS,
    PAUSE_ESCROW_CREATE, PAUSE_ESCROW_RELEASE, PAUSE_VAULT_CONFIG, PAUSE_VAULT_OUTFLOW,
    PERMISSION_CANCEL_WITHDRAWAL, PERMISSION_MANAGE_ASSETS, PERMISSION_MANAGE_LIMITS,
    PERMISSION_MANAGE_ROLES, PERMISSION_REQUEST_WITHDRAWAL, PERMISSION_WITHDRAW, PROTOCOL_SEED,
    ROLE_SEED, VAULT_ASSET_SEED, VAULT_SEED, VAULT_TOKEN_SEED, WITHDRAWAL_SEED,
};
use iron_vault::state::{Escrow, ProtocolConfig, RoleAssignment, Vault, VaultAsset, WithdrawalRequest};

#[test]
fn initial_schema_version_is_nonzero() {
    assert_ne!(INITIAL_SCHEMA_VERSION, 0);
}

#[test]
fn escrow_namespaces_match_the_account_model() {
    assert_eq!(&ESCROW_SEED, b"escrow");
    assert_eq!(&ESCROW_TOKEN_SEED, b"escrow_token");
}

#[test]
fn vault_namespaces_match_the_account_model() {
    assert_eq!(&VAULT_SEED, b"vault");
    assert_eq!(&VAULT_ASSET_SEED, b"vault_asset");
    assert_eq!(&VAULT_TOKEN_SEED, b"vault_token");
    assert_eq!(&ROLE_SEED, b"role");
    assert_eq!(&WITHDRAWAL_SEED, b"withdrawal");
}

#[test]
fn protocol_namespace_matches_the_account_model() {
    assert_eq!(&PROTOCOL_SEED, b"protocol");
}

#[test]
fn permission_mask_contains_exactly_the_reserved_bits() {
    assert_eq!(KNOWN_PERMISSIONS, 0b11_1111);
    assert_eq!(PERMISSION_WITHDRAW, 1);
    assert_eq!(PERMISSION_REQUEST_WITHDRAWAL, 2);
    assert_eq!(PERMISSION_CANCEL_WITHDRAWAL, 4);
    assert_eq!(PERMISSION_MANAGE_ASSETS, 8);
    assert_eq!(PERMISSION_MANAGE_LIMITS, 16);
    assert_eq!(PERMISSION_MANAGE_ROLES, 32);
}

#[test]
fn pause_mask_contains_exactly_the_reserved_bits() {
    assert_eq!(PAUSE_ESCROW_CREATE, 1);
    assert_eq!(PAUSE_ESCROW_RELEASE, 2);
    assert_eq!(PAUSE_VAULT_CONFIG, 4);
    assert_eq!(PAUSE_VAULT_OUTFLOW, 8);
    assert_eq!(KNOWN_PAUSE_FLAGS, 0b1111);
}

#[test]
fn escrow_size_matches_the_account_model() {
    assert_eq!(Escrow::INIT_SPACE, 192);
    assert_eq!(Escrow::SPACE, 200);
}

#[test]
fn vault_sizes_match_the_account_model() {
    assert_eq!(Vault::INIT_SPACE, 160);
    assert_eq!(Vault::SPACE, 168);
    assert_eq!(VaultAsset::INIT_SPACE, 192);
    assert_eq!(VaultAsset::SPACE, 200);
}

#[test]
fn protocol_role_and_request_sizes_include_the_discriminator() {
    assert_eq!(ProtocolConfig::SPACE, ProtocolConfig::INIT_SPACE + 8);
    assert_eq!(RoleAssignment::SPACE, RoleAssignment::INIT_SPACE + 8);
    assert_eq!(WithdrawalRequest::SPACE, WithdrawalRequest::INIT_SPACE + 8);
}
