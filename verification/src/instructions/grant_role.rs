//! `grant_role`: creates, replaces or reactivates an exact role mask.
use vstd::prelude::*;

use crate::constants::{INITIAL_SCHEMA_VERSION, KNOWN_PERMISSIONS, PAUSE_VAULT_CONFIG};
use crate::error::{IronVaultError, ProgramFailure};
use crate::events::RoleGranted;
use crate::instructions::fail;
use crate::pubkey::{keys_equal, Pubkey};
use crate::state::{ProtocolConfig, RoleAssignment, Vault};

verus! {

/// Accounts of `grant_role`.
#[derive(Clone, Copy, Debug)]
pub struct GrantRole {
    pub authority: Pubkey,
    pub protocol_config: ProtocolConfig,
    /// Address of the vault.
    pub vault_key: Pubkey,
    pub vault: Vault,
    /// Address of the principal's role assignment.
    pub role_assignment: Pubkey,
    /// Bump of the role assignment address.
    pub role_bump: u8,
}

/// The role after a grant and its event.
#[derive(Clone, Copy, Debug)]
pub struct RoleGrant {
    pub role: RoleAssignment,
    pub event: RoleGranted,
}

/// A mask is valid when it is not empty and holds only known bits.
pub open spec fn valid_permission_mask(permissions: u64) -> bool {
    permissions != 0 && permissions & !KNOWN_PERMISSIONS == 0
}

/// Why a grant is refused: the signer is not the authority, the configuration
/// pause, a principal that is unset or an intrinsic actor, or an invalid mask.
pub open spec fn grant_failure(ctx: GrantRole, principal: Pubkey, permissions: u64) -> Option<
    ProgramFailure,
> {
    if ctx.vault.authority != ctx.authority {
        fail(IronVaultError::InvalidVaultAuthority)
    } else if ctx.protocol_config.spec_is_paused(PAUSE_VAULT_CONFIG) {
        fail(IronVaultError::ProtocolPaused)
    } else if principal.spec_is_default() || principal == ctx.vault.authority || principal
        == ctx.vault.guardian {
        fail(IronVaultError::InvalidRolePrincipal)
    } else if !valid_permission_mask(permissions) {
        fail(IronVaultError::InvalidPermissionMask)
    } else {
        None
    }
}

/// The role and event of a successful grant.
pub open spec fn spec_grant(ctx: GrantRole, principal: Pubkey, permissions: u64) -> RoleGrant {
    RoleGrant {
        role: RoleAssignment {
            vault: ctx.vault_key,
            principal,
            permissions,
            active: true,
            bump: ctx.role_bump,
        },
        event: RoleGranted {
            version: INITIAL_SCHEMA_VERSION,
            vault: ctx.vault_key,
            principal,
            permissions,
        },
    }
}

/// Grants exactly `permissions` to `principal`, replacing any earlier mask.
pub fn grant(ctx: &GrantRole, principal: Pubkey, permissions: u64) -> (r: Result<
    RoleGrant,
    ProgramFailure,
>)
    ensures
        r matches Err(f) ==> grant_failure(*ctx, principal, permissions) == Some(f),
        r matches Ok(g) ==> grant_failure(*ctx, principal, permissions) is None && g == spec_grant(
            *ctx,
            principal,
            permissions,
        ),
{
    if !keys_equal(&ctx.vault.authority, &ctx.authority) {
        return Err(ProgramFailure::Vault(IronVaultError::InvalidVaultAuthority));
    }
    if ctx.protocol_config.is_paused(PAUSE_VAULT_CONFIG) {
        return Err(ProgramFailure::Vault(IronVaultError::ProtocolPaused));
    }
    if principal.is_default() || keys_equal(&principal, &ctx.vault.authority) || keys_equal(
        &principal,
        &ctx.vault.guardian,
    ) {
        return Err(ProgramFailure::Vault(IronVaultError::InvalidRolePrincipal));
    }
    if permissions == 0 || permissions & !KNOWN_PERMISSIONS != 0 {
        return Err(ProgramFailure::Vault(IronVaultError::InvalidPermissionMask));
    }
    Ok(
        RoleGrant {
            role: RoleAssignment {
                vault: ctx.vault_key,
                principal,
                permissions,
                active: true,
                bump: ctx.role_bump,
            },
            event: RoleGranted {
                version: INITIAL_SCHEMA_VERSION,
                vault: ctx.vault_key,
                principal,
                permissions,
            },
        },
    )
}

} // verus!
