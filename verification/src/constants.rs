//! Protocol-wide constants: schema version, PDA namespaces, permission bits
//! and protocol pause flags.
use vstd::prelude::*;

verus! {

/// Schema version carried by protocol state and by every emitted event.
pub const INITIAL_SCHEMA_VERSION: u16 = 1;

/// Namespace for the singleton protocol configuration PDA (`b"protocol"`).
pub const PROTOCOL_SEED: [u8; 8] = [112, 114, 111, 116, 111, 99, 111, 108];

/// Namespace for escrow state PDAs (`b"escrow"`).
pub const ESCROW_SEED: [u8; 6] = [101, 115, 99, 114, 111, 119];

/// Namespace for escrow custody token account PDAs (`b"escrow_token"`).
pub const ESCROW_TOKEN_SEED: [u8; 12] = [101, 115, 99, 114, 111, 119, 95, 116, 111, 107, 101, 110];

/// Namespace for vault state PDAs (`b"vault"`).
pub const VAULT_SEED: [u8; 5] = [118, 97, 117, 108, 116];

/// Namespace for per-mint vault asset state PDAs (`b"vault_asset"`).
pub const VAULT_ASSET_SEED: [u8; 11] = [118, 97, 117, 108, 116, 95, 97, 115, 115, 101, 116];

/// Namespace for per-mint vault custody token account PDAs (`b"vault_token"`).
pub const VAULT_TOKEN_SEED: [u8; 11] = [118, 97, 117, 108, 116, 95, 116, 111, 107, 101, 110];

/// Namespace for per-principal role assignment PDAs (`b"role"`).
pub const ROLE_SEED: [u8; 4] = [114, 111, 108, 101];

/// Namespace for immutable timelocked withdrawal request PDAs (`b"withdrawal"`).
pub const WITHDRAWAL_SEED: [u8; 10] = [119, 105, 116, 104, 100, 114, 97, 119, 97, 108];

/// Perform an eligible instant withdrawal.
pub const PERMISSION_WITHDRAW: u64 = 1 << 0;
/// Create a timelocked withdrawal request.
pub const PERMISSION_REQUEST_WITHDRAWAL: u64 = 1 << 1;
/// Cancel a pending withdrawal request.
pub const PERMISSION_CANCEL_WITHDRAWAL: u64 = 1 << 2;
/// Register or enable/disable an asset.
pub const PERMISSION_MANAGE_ASSETS: u64 = 1 << 3;
/// Change an existing asset policy.
pub const PERMISSION_MANAGE_LIMITS: u64 = 1 << 4;
/// Grant, replace, or revoke non-authority roles.
pub const PERMISSION_MANAGE_ROLES: u64 = 1 << 5;
/// Every permission bit that v1 assigns a meaning to.
pub const KNOWN_PERMISSIONS: u64 = PERMISSION_WITHDRAW | PERMISSION_REQUEST_WITHDRAWAL
    | PERMISSION_CANCEL_WITHDRAWAL | PERMISSION_MANAGE_ASSETS | PERMISSION_MANAGE_LIMITS
    | PERMISSION_MANAGE_ROLES;

/// Stops `create_escrow`.
pub const PAUSE_ESCROW_CREATE: u32 = 1 << 0;
/// Stops pre-expiry `release_escrow` (never an expired refund).
pub const PAUSE_ESCROW_RELEASE: u32 = 1 << 1;
/// Stops vault creation and vault, asset and role configuration.
pub const PAUSE_VAULT_CONFIG: u32 = 1 << 2;
/// Stops instant withdrawals, new requests and request execution.
pub const PAUSE_VAULT_OUTFLOW: u32 = 1 << 3;
/// Every protocol pause bit that v1 assigns a meaning to.
pub const KNOWN_PAUSE_FLAGS: u32 = PAUSE_ESCROW_CREATE | PAUSE_ESCROW_RELEASE | PAUSE_VAULT_CONFIG
    | PAUSE_VAULT_OUTFLOW;

/// The values of the permission bits and of their union.
pub proof fn lemma_permission_values()
    ensures
        PERMISSION_WITHDRAW == 1,
        PERMISSION_REQUEST_WITHDRAWAL == 2,
        PERMISSION_CANCEL_WITHDRAWAL == 4,
        PERMISSION_MANAGE_ASSETS == 8,
        PERMISSION_MANAGE_LIMITS == 16,
        PERMISSION_MANAGE_ROLES == 32,
        KNOWN_PERMISSIONS == 63,
{
    assert(1u64 << 0u64 == 1 && 1u64 << 1u64 == 2 && 1u64 << 2u64 == 4 && 1u64 << 3u64 == 8
        && 1u64 << 4u64 == 16 && 1u64 << 5u64 == 32) by (bit_vector);
    assert(1u64 | 2u64 | 4u64 | 8u64 | 16u64 | 32u64 == 63u64) by (bit_vector);
}

/// The values of the pause bits and of their union.
pub proof fn lemma_pause_flag_values()
    ensures
        PAUSE_ESCROW_CREATE == 1,
        PAUSE_ESCROW_RELEASE == 2,
        PAUSE_VAULT_CONFIG == 4,
        PAUSE_VAULT_OUTFLOW == 8,
        KNOWN_PAUSE_FLAGS == 15,
{
    assert(1u32 << 0u32 == 1 && 1u32 << 1u32 == 2 && 1u32 << 2u32 == 4 && 1u32 << 3u32 == 8)
        by (bit_vector);
    assert(1u32 | 2u32 | 4u32 | 8u32 == 15u32) by (bit_vector);
}

} // verus!
