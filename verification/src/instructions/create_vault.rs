//! `create_vault`: creates a vault namespace controlled by one authority.
use vstd::prelude::*;

use crate::constants::{INITIAL_SCHEMA_VERSION, PAUSE_VAULT_CONFIG};
use crate::error::{IronVaultError, ProgramFailure};
use crate::events::VaultCreated;
use crate::instructions::fail;
use crate::pubkey::{keys_equal, Pubkey};
use crate::state::{ProtocolConfig, Vault};

verus! {

/// Accounts of `create_vault`.
#[derive(Clone, Copy, Debug)]
pub struct CreateVault {
    /// The signing authority, whose key also names the vault namespace.
    pub authority: Pubkey,
    pub protocol_config: ProtocolConfig,
    /// Address of the vault being created.
    pub vault: Pubkey,
    /// Bump of the vault address.
    pub vault_bump: u8,
}

/// A new vault and its event.
#[derive(Clone, Copy, Debug)]
pub struct VaultCreation {
    pub vault: Vault,
    pub event: VaultCreated,
}

/// Why `create_vault` is refused: the configuration pause, or a guardian that
/// is unset or equal to the authority.
pub open spec fn create_vault_failure(ctx: CreateVault, guardian: Pubkey) -> Option<ProgramFailure> {
    if ctx.protocol_config.spec_is_paused(PAUSE_VAULT_CONFIG) {
        fail(IronVaultError::ProtocolPaused)
    } else if guardian.spec_is_default() || guardian == ctx.authority {
        fail(IronVaultError::InvalidVaultGuardian)
    } else {
        None
    }
}

/// The vault and event of a successful creation.
pub open spec fn spec_vault_creation(ctx: CreateVault, vault_id: u64, guardian: Pubkey) -> VaultCreation {
    VaultCreation {
        vault: Vault {
            namespace_authority: ctx.authority,
            authority: ctx.authority,
            guardian,
            vault_id,
            next_withdrawal_id: 0,
            paused: false,
            bump: ctx.vault_bump,
        },
        event: VaultCreated {
            version: INITIAL_SCHEMA_VERSION,
            vault: ctx.vault,
            namespace_authority: ctx.authority,
            authority: ctx.authority,
            guardian,
            vault_id,
        },
    }
}

/// Creates an active, unpaused vault owned by the signing authority.
pub fn create_vault_account(ctx: &CreateVault, vault_id: u64, guardian: Pubkey) -> (r: Result<
    VaultCreation,
    ProgramFailure,
>)
    ensures
        r matches Err(f) ==> create_vault_failure(*ctx, guardian) == Some(f),
        r matches Ok(c) ==> create_vault_failure(*ctx, guardian) is None && c
            == spec_vault_creation(*ctx, vault_id, guardian),
{
    if ctx.protocol_config.is_paused(PAUSE_VAULT_CONFIG) {
        return Err(ProgramFailure::Vault(IronVaultError::ProtocolPaused));
    }
    if guardian.is_default() || keys_equal(&guardian, &ctx.authority) {
        return Err(ProgramFailure::Vault(IronVaultError::InvalidVaultGuardian));
    }
    Ok(
        VaultCreation {
            vault: Vault {
                namespace_authority: ctx.authority,
                authority: ctx.authority,
                guardian,
                vault_id,
                next_withdrawal_id: 0,
                paused: false,
                bump: ctx.vault_bump,
            },
            event: VaultCreated {
                version: INITIAL_SCHEMA_VERSION,
                vault: ctx.vault,
                namespace_authority: ctx.authority,
                authority: ctx.authority,
                guardian,
                vault_id,
            },
        },
    )
}

} // verus!
