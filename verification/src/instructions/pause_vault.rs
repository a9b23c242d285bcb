//! `pause_vault` and `unpause_vault`: the local vault pause.
use vstd::prelude::*;

use crate::constants::INITIAL_SCHEMA_VERSION;
use crate::error::{IronVaultError, ProgramFailure};
use crate::events::VaultPauseUpdated;
use crate::instructions::fail;
use crate::pubkey::{keys_equal, Pubkey};
use crate::state::Vault;

verus! {

/// Accounts of `pause_vault`.
#[derive(Clone, Copy, Debug)]
pub struct PauseVault {
    pub caller: Pubkey,
    /// Address of the vault.
    pub vault: Pubkey,
}

/// Accounts of `unpause_vault`.
#[derive(Clone, Copy, Debug)]
pub struct UnpauseVault {
    pub authority: Pubkey,
    /// Address of the vault.
    pub vault: Pubkey,
}

/// Why a pause is refused: the caller is neither authority nor guardian, or
/// the vault is already paused.
pub open spec fn pause_failure(ctx: PauseVault, vault: Vault) -> Option<ProgramFailure> {
    if ctx.caller != vault.authority && ctx.caller != vault.guardian {
        fail(IronVaultError::UnauthorizedVaultPause)
    } else if vault.paused {
        fail(IronVaultError::VaultPauseUnchanged)
    } else {
        None
    }
}

/// Why an unpause is refused: the signer is not the authority, or the vault
/// is not paused.
pub open spec fn unpause_failure(ctx: UnpauseVault, vault: Vault) -> Option<ProgramFailure> {
    if ctx.authority != vault.authority {
        fail(IronVaultError::UnauthorizedVaultUnpause)
    } else if !vault.paused {
        fail(IronVaultError::VaultPauseUnchanged)
    } else {
        None
    }
}

/// Pauses local vault outflows; the authority or the guardian may call it.
pub fn pause(ctx: &PauseVault, vault: &mut Vault) -> (r: Result<VaultPauseUpdated, ProgramFailure>)
    ensures
        r matches Err(f) ==> pause_failure(*ctx, *old(vault)) == Some(f) && *final(vault) == *old(
            vault,
        ),
        r matches Ok(event) ==> {
            &&& pause_failure(*ctx, *old(vault)) is None
            &&& *final(vault) == Vault { paused: true, ..*old(vault) }
            &&& event == VaultPauseUpdated {
                version: INITIAL_SCHEMA_VERSION,
                vault: ctx.vault,
                caller: ctx.caller,
                paused: true,
            }
        },
{
    if !keys_equal(&ctx.caller, &vault.authority) && !keys_equal(&ctx.caller, &vault.guardian) {
        return Err(ProgramFailure::Vault(IronVaultError::UnauthorizedVaultPause));
    }
    if vault.paused {
        return Err(ProgramFailure::Vault(IronVaultError::VaultPauseUnchanged));
    }
    vault.paused = true;
    Ok(
        VaultPauseUpdated {
            version: INITIAL_SCHEMA_VERSION,
            vault: ctx.vault,
            caller: ctx.caller,
            paused: true,
        },
    )
}

/// Restores local vault outflows; only the authority may call it.
pub fn unpause(ctx: &UnpauseVault, vault: &mut Vault) -> (r: Result<
    VaultPauseUpdated,
    ProgramFailure,
>)
    ensures
        r matches Err(f) ==> unpause_failure(*ctx, *old(vault)) == Some(f) && *final(vault)
            == *old(vault),
        r matches Ok(event) ==> {
            &&& unpause_failure(*ctx, *old(vault)) is None
            &&& *final(vault) == Vault { paused: false, ..*old(vault) }
            &&& event == VaultPauseUpdated {
                version: INITIAL_SCHEMA_VERSION,
                vault: ctx.vault,
                caller: ctx.authority,
                paused: false,
            }
        },
{
    if !keys_equal(&ctx.authority, &vault.authority) {
        return Err(ProgramFailure::Vault(IronVaultError::UnauthorizedVaultUnpause));
    }
    if !vault.paused {
        return Err(ProgramFailure::Vault(IronVaultError::VaultPauseUnchanged));
    }
    vault.paused = false;
    Ok(
        VaultPauseUpdated {
            version: INITIAL_SCHEMA_VERSION,
            vault: ctx.vault,
            caller: ctx.authority,
            paused: false,
        },
    )
}

} // verus!
