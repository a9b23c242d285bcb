//! `revoke_role`: immediately clears and deactivates a role.
use vstd::prelude::*;

use crate::constants::{INITIAL_SCHEMA_VERSION, PAUSE_VAULT_CONFIG};
use crate::error::{IronVaultError, ProgramFailure};
use crate::events::RoleRevoked;
use crate::instructions::fail;
use crate::pubkey::{keys_equal, Pubkey};
use crate::state::{ProtocolConfig, RoleAssignment, Vault};

verus! {

/// Accounts of `revoke_role`.
#[derive(Clone, Copy, Debug)]
pub struct RevokeRole {
    pub authority: Pubkey,
    pub protocol_config: ProtocolConfig,
    /// Address of the vault.
    pub vault_key: Pubkey,
    pub vault: Vault,
}

/// Why a revocation is refused: the signer is not the authority, the role is
/// not this vault's role for the principal, the configuration pause, or an
/// inactive role.
pub open spec fn revoke_failure(ctx: RevokeRole, role: RoleAssignment, principal: Pubkey) -> Option<
    ProgramFailure,
> {
    if ctx.vault.authority != ctx.authority {
        fail(IronVaultError::InvalidVaultAuthority)
    } else if role.vault != ctx.vault_key {
        Some(ProgramFailure::ConstraintHasOne)
    } else if role.principal != principal {
        Some(ProgramFailure::ConstraintRaw)
    } else if ctx.protocol_config.spec_is_paused(PAUSE_VAULT_CONFIG) {
        fail(IronVaultError::ProtocolPaused)
    } else if !role.active {
        fail(IronVaultError::RoleNotActive)
    } else {
        None
    }
}

/// Clears the mask and deactivates the role; it grants nothing from now on.
pub fn revoke(ctx: &RevokeRole, role: &mut RoleAssignment, principal: Pubkey) -> (r: Result<
    RoleRevoked,
    ProgramFailure,
>)
    ensures
        r matches Err(f) ==> revoke_failure(*ctx, *old(role), principal) == Some(f) && *final(role)
            == *old(role),
        r matches Ok(event) ==> {
            &&& revoke_failure(*ctx, *old(role), principal) is None
            &&& *final(role) == RoleAssignment { permissions: 0, active: false, ..*old(role) }
            &&& event == RoleRevoked {
                version: INITIAL_SCHEMA_VERSION,
                vault: old(role).vault,
                principal: old(role).principal,
                previous_permissions: old(role).permissions,
            }
        },
{
    if !keys_equal(&ctx.vault.authority, &ctx.authority) {
        return Err(ProgramFailure::Vault(IronVaultError::InvalidVaultAuthority));
    }
    if !keys_equal(&role.vault, &ctx.vault_key) {
        return Err(ProgramFailure::ConstraintHasOne);
    }
    if !keys_equal(&role.principal, &principal) {
        return Err(ProgramFailure::ConstraintRaw);
    }
    if ctx.protocol_config.is_paused(PAUSE_VAULT_CONFIG) {
        return Err(ProgramFailure::Vault(IronVaultError::ProtocolPaused));
    }
    if !role.active {
        return Err(ProgramFailure::Vault(IronVaultError::RoleNotActive));
    }
    let previous_permissions = role.permissions;
    role.permissions = 0;
    role.active = false;
    Ok(
        RoleRevoked {
            version: INITIAL_SCHEMA_VERSION,
            vault: role.vault,
            principal: role.principal,
            previous_permissions,
        },
    )
}

} // verus!
