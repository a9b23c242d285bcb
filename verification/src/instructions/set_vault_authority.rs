//! `set_vault_authority`: rotates the vault authority without changing the
//! vault address.
use vstd::prelude::*;

use crate::constants::{INITIAL_SCHEMA_VERSION, PAUSE_VAULT_CONFIG};
use crate::error::{IronVaultError, ProgramFailure};
use crate::events::VaultAuthorityUpdated;
use crate::instructions::fail;
use crate::pubkey::{keys_equal, Pubkey};
use crate::state::{ProtocolConfig, Vault};

verus! {

/// Accounts of `set_vault_authority`.
#[derive(Clone, Copy, Debug)]
pub struct SetVaultAuthority {
    pub current_authority: Pubkey,
    pub protocol_config: ProtocolConfig,
    /// Address of the vault.
    pub vault: Pubkey,
}

/// Why the rotation is refused: the signer is not the current authority, the
/// configuration pause, or a new authority that is unset, unchanged or the
/// guardian.
pub open spec fn set_authority_failure(
    ctx: SetVaultAuthority,
    vault: Vault,
    new_authority: Pubkey,
) -> Option<ProgramFailure> {
    if vault.authority != ctx.current_authority {
        fail(IronVaultError::InvalidVaultAuthority)
    } else if ctx.protocol_config.spec_is_paused(PAUSE_VAULT_CONFIG) {
        fail(IronVaultError::ProtocolPaused)
    } else if new_authority.spec_is_default() || new_authority == vault.authority || new_authority
        == vault.guardian {
        fail(IronVaultError::InvalidNewVaultAuthority)
    } else {
        None
    }
}

/// Replaces the stored authority; the previous key loses all authority at once.
pub fn set_authority(ctx: &SetVaultAuthority, vault: &mut Vault, new_authority: Pubkey) -> (r:
    Result<VaultAuthorityUpdated, ProgramFailure>)
    ensures
        r matches Err(f) ==> set_authority_failure(*ctx, *old(vault), new_authority) == Some(f)
            && *final(vault) == *old(vault),
        r matches Ok(event) ==> {
            &&& set_authority_failure(*ctx, *old(vault), new_authority) is None
            &&& *final(vault) == Vault { authority: new_authority, ..*old(vault) }
            &&& event == VaultAuthorityUpdated {
                version: INITIAL_SCHEMA_VERSION,
                vault: ctx.vault,
                previous_authority: old(vault).authority,
                new_authority,
            }
        },
{
    if !keys_equal(&vault.authority, &ctx.current_authority) {
        return Err(ProgramFailure::Vault(IronVaultError::InvalidVaultAuthority));
    }
    if ctx.protocol_config.is_paused(PAUSE_VAULT_CONFIG) {
        return Err(ProgramFailure::Vault(IronVaultError::ProtocolPaused));
    }
    let previous_authority = vault.authority;
    if new_authority.is_default() || keys_equal(&new_authority, &previous_authority) || keys_equal(
        &new_authority,
        &vault.guardian,
    ) {
        return Err(ProgramFailure::Vault(IronVaultError::InvalidNewVaultAuthority));
    }
    vault.authority = new_authority;
    Ok(
        VaultAuthorityUpdated {
            version: INITIAL_SCHEMA_VERSION,
            vault: ctx.vault,
            previous_authority,
            new_authority,
        },
    )
}

} // verus!
