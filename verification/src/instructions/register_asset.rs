//! `register_asset`: registers a supported mint and its custody account in a
//! vault.
use vstd::prelude::*;

use crate::constants::{INITIAL_SCHEMA_VERSION, PAUSE_VAULT_CONFIG};
use crate::error::{IronVaultError, ProgramFailure};
use crate::events::VaultAssetRegistered;
use crate::instructions::{check_mint, fail, mint_failure};
use crate::pubkey::{keys_equal, Pubkey};
use crate::state::{MintAccount, ProtocolConfig, Vault, VaultAsset};

verus! {

/// Accounts of `register_asset`.
#[derive(Clone, Debug)]
pub struct RegisterAsset {
    pub authority: Pubkey,
    pub protocol_config: ProtocolConfig,
    /// Address of the vault.
    pub vault_key: Pubkey,
    pub vault: Vault,
    pub mint: MintAccount,
    /// Address of the asset state being created.
    pub vault_asset: Pubkey,
    /// Bump of the asset state address.
    pub vault_asset_bump: u8,
    /// Address of the custody token account being created.
    pub vault_token: Pubkey,
    pub token_program: Pubkey,
}

/// A newly registered asset and its event.
#[derive(Clone, Copy, Debug)]
pub struct AssetRegistration {
    pub asset: VaultAsset,
    pub event: VaultAssetRegistered,
}

/// Why registration is refused: the signer is not the authority, the mint
/// fails the token checks, or the configuration pause is set.
pub open spec fn register_failure(ctx: RegisterAsset) -> Option<ProgramFailure> {
    if ctx.vault.authority != ctx.authority {
        fail(IronVaultError::InvalidVaultAuthority)
    } else if mint_failure(ctx.mint, ctx.token_program) is Some {
        mint_failure(ctx.mint, ctx.token_program)
    } else if ctx.protocol_config.spec_is_paused(PAUSE_VAULT_CONFIG) {
        fail(IronVaultError::ProtocolPaused)
    } else {
        None
    }
}

/// The asset of a successful registration: enabled, no effective limits, an
/// empty window starting at `now`, and no timelock.
pub open spec fn spec_registration(ctx: RegisterAsset, now: i64) -> AssetRegistration {
    AssetRegistration {
        asset: VaultAsset {
            vault: ctx.vault_key,
            mint: ctx.mint.key,
            token_program: ctx.token_program,
            max_per_transaction: u64::MAX,
            window_limit: u64::MAX,
            window_seconds: 0,
            window_started_at: now,
            window_spent: 0,
            timelock_threshold: u64::MAX,
            timelock_seconds: 0,
            request_execution_window_seconds: 0,
            enabled: true,
            bump: ctx.vault_asset_bump,
        },
        event: VaultAssetRegistered {
            version: INITIAL_SCHEMA_VERSION,
            vault: ctx.vault_key,
            vault_asset: ctx.vault_asset,
            vault_token: ctx.vault_token,
            mint: ctx.mint.key,
            token_program: ctx.token_program,
        },
    }
}

/// Registers an enabled asset with zero window spend.
pub fn register_vault_asset(ctx: &RegisterAsset, now: i64) -> (r: Result<
    AssetRegistration,
    ProgramFailure,
>)
    ensures
        r matches Err(f) ==> register_failure(*ctx) == Some(f),
        r matches Ok(reg) ==> register_failure(*ctx) is None && reg == spec_registration(*ctx, now),
{
    if !keys_equal(&ctx.vault.authority, &ctx.authority) {
        return Err(ProgramFailure::Vault(IronVaultError::InvalidVaultAuthority));
    }
    check_mint(&ctx.mint, &ctx.token_program)?;
    if ctx.protocol_config.is_paused(PAUSE_VAULT_CONFIG) {
        return Err(ProgramFailure::Vault(IronVaultError::ProtocolPaused));
    }
    Ok(
        AssetRegistration {
            asset: VaultAsset {
                vault: ctx.vault_key,
                mint: ctx.mint.key,
                token_program: ctx.token_program,
                max_per_transaction: u64::MAX,
                window_limit: u64::MAX,
                window_seconds: 0,
                window_started_at: now,
                window_spent: 0,
                timelock_threshold: u64::MAX,
                timelock_seconds: 0,
                request_execution_window_seconds: 0,
                enabled: true,
                bump: ctx.vault_asset_bump,
            },
            event: VaultAssetRegistered {
                version: INITIAL_SCHEMA_VERSION,
                vault: ctx.vault_key,
                vault_asset: ctx.vault_asset,
                vault_token: ctx.vault_token,
                mint: ctx.mint.key,
                token_program: ctx.token_program,
            },
        },
    )
}

} // verus!
