//! `deposit`: permissionless deposit into a registered, enabled vault asset.
use vstd::prelude::*;

use crate::constants::INITIAL_SCHEMA_VERSION;
use crate::error::{IronVaultError, ProgramFailure};
use crate::events::VaultDeposit;
use crate::instructions::release_escrow::{checked_add_u64, checked_sum};
use crate::instructions::{check_mint, fail, mint_failure, TokenTransfer};
use crate::pubkey::{keys_equal, Pubkey};
use crate::state::{MintAccount, TokenAccount, VaultAsset};

verus! {

/// Accounts of `deposit`. No pause flag applies to deposits.
#[derive(Clone, Debug)]
pub struct Deposit {
    pub depositor: Pubkey,
    /// Address of the vault.
    pub vault: Pubkey,
    pub mint: MintAccount,
    /// Address of the asset state.
    pub vault_asset_key: Pubkey,
    /// The depositor's source token account.
    pub source_token: TokenAccount,
    /// The vault's custody token account for the mint.
    pub vault_token: TokenAccount,
    pub token_program: Pubkey,
}

/// The transfer into custody and its event.
#[derive(Clone, Copy, Debug)]
pub struct DepositPlan {
    pub transfer: TokenTransfer,
    pub event: VaultDeposit,
}

/// Why a deposit is refused, checks in order: the mint checks, the asset must
/// be this vault's asset for the mint and program, the source must belong to
/// the depositor, the custody to the vault, then the amount, enablement and
/// balances.
pub open spec fn deposit_failure(ctx: Deposit, asset: VaultAsset, amount: u64) -> Option<
    ProgramFailure,
> {
    if mint_failure(ctx.mint, ctx.token_program) is Some {
        mint_failure(ctx.mint, ctx.token_program)
    } else if asset.vault != ctx.vault || asset.mint != ctx.mint.key {
        Some(ProgramFailure::ConstraintHasOne)
    } else if asset.token_program != ctx.token_program {
        Some(ProgramFailure::ConstraintRaw)
    } else if ctx.source_token.owner != ctx.depositor {
        fail(IronVaultError::InvalidDepositSourceOwner)
    } else if ctx.source_token.mint != asset.mint {
        fail(IronVaultError::InvalidDepositSourceMint)
    } else if ctx.source_token.program != ctx.token_program {
        fail(IronVaultError::InvalidTokenProgram)
    } else if ctx.vault_token.owner != ctx.vault {
        fail(IronVaultError::InvalidVaultCustodyBalance)
    } else if ctx.vault_token.mint != asset.mint {
        fail(IronVaultError::InvalidDepositSourceMint)
    } else if ctx.vault_token.program != ctx.token_program {
        fail(IronVaultError::InvalidTokenProgram)
    } else if amount == 0 {
        fail(IronVaultError::InvalidVaultAmount)
    } else if !asset.enabled {
        fail(IronVaultError::VaultAssetDisabled)
    } else if ctx.source_token.amount < amount {
        fail(IronVaultError::InsufficientFunds)
    } else if checked_sum(ctx.vault_token.amount, amount) is None {
        fail(IronVaultError::InvalidVaultCustodyBalance)
    } else {
        None
    }
}

/// The transfer and event of a successful deposit.
pub open spec fn spec_deposit(ctx: Deposit, amount: u64) -> DepositPlan {
    DepositPlan {
        transfer: TokenTransfer {
            source: ctx.source_token.key,
            destination: ctx.vault_token.key,
            mint: ctx.mint.key,
            authority: ctx.depositor,
            token_program: ctx.token_program,
            amount,
            decimals: ctx.mint.decimals,
            source_after: (ctx.source_token.amount - amount) as u64,
            destination_after: checked_sum(ctx.vault_token.amount, amount),
            source_mismatch: IronVaultError::InvalidDepositSourceBalance,
            destination_mismatch: IronVaultError::InvalidVaultCustodyBalance,
        },
        event: VaultDeposit {
            version: INITIAL_SCHEMA_VERSION,
            vault: ctx.vault,
            vault_asset: ctx.vault_asset_key,
            vault_token: ctx.vault_token.key,
            depositor: ctx.depositor,
            source_token: ctx.source_token.key,
            mint: ctx.mint.key,
            amount,
        },
    }
}

/// Moves exactly `amount` from the depositor into the asset's custody; no
/// state other than the balances changes.
pub fn deposit_tokens(ctx: &Deposit, asset: &VaultAsset, amount: u64) -> (r: Result<
    DepositPlan,
    ProgramFailure,
>)
    ensures
        r matches Err(f) ==> deposit_failure(*ctx, *asset, amount) == Some(f),
        r matches Ok(plan) ==> deposit_failure(*ctx, *asset, amount) is None && plan
            == spec_deposit(*ctx, amount),
{
    check_mint(&ctx.mint, &ctx.token_program)?;
    if !keys_equal(&asset.vault, &ctx.vault) || !keys_equal(&asset.mint, &ctx.mint.key) {
        return Err(ProgramFailure::ConstraintHasOne);
    }
    if !keys_equal(&asset.token_program, &ctx.token_program) {
        return Err(ProgramFailure::ConstraintRaw);
    }
    if !keys_equal(&ctx.source_token.owner, &ctx.depositor) {
        return Err(ProgramFailure::Vault(IronVaultError::InvalidDepositSourceOwner));
    }
    if !keys_equal(&ctx.source_token.mint, &asset.mint) {
        return Err(ProgramFailure::Vault(IronVaultError::InvalidDepositSourceMint));
    }
    if !keys_equal(&ctx.source_token.program, &ctx.token_program) {
        return Err(ProgramFailure::Vault(IronVaultError::InvalidTokenProgram));
    }
    if !keys_equal(&ctx.vault_token.owner, &ctx.vault) {
        return Err(ProgramFailure::Vault(IronVaultError::InvalidVaultCustodyBalance));
    }
    if !keys_equal(&ctx.vault_token.mint, &asset.mint) {
        return Err(ProgramFailure::Vault(IronVaultError::InvalidDepositSourceMint));
    }
    if !keys_equal(&ctx.vault_token.program, &ctx.token_program) {
        return Err(ProgramFailure::Vault(IronVaultError::InvalidTokenProgram));
    }
    if amount == 0 {
        return Err(ProgramFailure::Vault(IronVaultError::InvalidVaultAmount));
    }
    if !asset.enabled {
        return Err(ProgramFailure::Vault(IronVaultError::VaultAssetDisabled));
    }
    if ctx.source_token.amount < amount {
        return Err(ProgramFailure::Vault(IronVaultError::InsufficientFunds));
    }
    let custody_after = checked_add_u64(ctx.vault_token.amount, amount);
    if custody_after.is_none() {
        return Err(ProgramFailure::Vault(IronVaultError::InvalidVaultCustodyBalance));
    }
    Ok(
        DepositPlan {
            transfer: TokenTransfer {
                source: ctx.source_token.key,
                destination: ctx.vault_token.key,
                mint: ctx.mint.key,
                authority: ctx.depositor,
                token_program: ctx.token_program,
                amount,
                decimals: ctx.mint.decimals,
                source_after: ctx.source_token.amount - amount,
                destination_after: custody_after,
                source_mismatch: IronVaultError::InvalidDepositSourceBalance,
                destination_mismatch: IronVaultError::InvalidVaultCustodyBalance,
            },
            event: VaultDeposit {
                version: INITIAL_SCHEMA_VERSION,
                vault: ctx.vault,
                vault_asset: ctx.vault_asset_key,
                vault_token: ctx.vault_token.key,
                depositor: ctx.depositor,
                source_token: ctx.source_token.key,
                mint: ctx.mint.key,
                amount,
            },
        },
    )
}

} // verus!
