//! `withdraw`: an instant withdrawal by the authority or a `WITHDRAW` operator,
//! within the asset's threshold and limits.
use vstd::prelude::*;

use crate::constants::{INITIAL_SCHEMA_VERSION, PAUSE_VAULT_OUTFLOW, PERMISSION_WITHDRAW};
use crate::error::{IronVaultError, ProgramFailure};
use crate::events::VaultWithdrawal;
use crate::instructions::release_escrow::{checked_add_u64, checked_sum};
use crate::instructions::{
    authorize_operator,
    fail,
    operator_failure,
    role_resolvable,
    role_unresolvable,
    TokenTransfer,
};
use crate::policy::{next_window_state, spec_next_window_state};
use crate::pubkey::{keys_equal, Pubkey};
use crate::state::{AccountInfo, MintAccount, ProtocolConfig, TokenAccount, Vault, VaultAsset};

verus! {

/// Accounts of `withdraw`.
#[derive(Clone, Debug)]
pub struct Withdraw {
    pub caller: Pubkey,
    pub protocol_config: ProtocolConfig,
    /// Address of the vault.
    pub vault_key: Pubkey,
    pub vault: Vault,
    pub mint: MintAccount,
    /// Address of the asset state.
    pub vault_asset_key: Pubkey,
    /// The vault's custody token account for the mint.
    pub vault_token: TokenAccount,
    /// Any token account of the asset's mint.
    pub destination_token: TokenAccount,
    pub token_program: Pubkey,
    /// Extra accounts: none for the authority, the caller's role otherwise.
    pub remaining_accounts: Vec<AccountInfo>,
}

/// The asset with its window charged, the transfer out of custody, and the
/// event of an instant withdrawal.
#[derive(Clone, Copy, Debug)]
pub struct WithdrawalPlan {
    pub asset: VaultAsset,
    pub transfer: TokenTransfer,
    pub event: VaultWithdrawal,
}

/// Why an instant withdrawal is refused, checks in order: account relations,
/// the outflow pause, authorization, the amount, the local pause, enablement,
/// the per-transaction limit, the rolling window, the timelock threshold,
/// custody funds, and the destination balance.
pub open spec fn withdraw_failure(ctx: Withdraw, asset: VaultAsset, amount: u64, now: i64) -> Option<
    ProgramFailure,
> {
    if asset.vault != ctx.vault_key || asset.mint != ctx.mint.key {
        Some(ProgramFailure::ConstraintHasOne)
    } else if asset.token_program != ctx.token_program {
        Some(ProgramFailure::ConstraintRaw)
    } else if ctx.vault_token.owner != ctx.vault_key {
        fail(IronVaultError::InvalidVaultCustodyBalance)
    } else if ctx.vault_token.mint != asset.mint {
        fail(IronVaultError::InvalidWithdrawalDestinationMint)
    } else if ctx.destination_token.mint != asset.mint {
        fail(IronVaultError::InvalidWithdrawalDestinationMint)
    } else if ctx.protocol_config.spec_is_paused(PAUSE_VAULT_OUTFLOW) {
        fail(IronVaultError::ProtocolPaused)
    } else if operator_failure(
        ctx.caller == ctx.vault.authority,
        ctx.caller,
        ctx.vault_key,
        ctx.remaining_accounts@,
        PERMISSION_WITHDRAW,
        IronVaultError::UnexpectedWithdrawalAccounts,
        IronVaultError::MissingVaultPermission,
    ) is Some {
        fail(
            operator_failure(
                ctx.caller == ctx.vault.authority,
                ctx.caller,
                ctx.vault_key,
                ctx.remaining_accounts@,
                PERMISSION_WITHDRAW,
                IronVaultError::UnexpectedWithdrawalAccounts,
                IronVaultError::MissingVaultPermission,
            )->0,
        )
    } else if amount == 0 {
        fail(IronVaultError::InvalidVaultAmount)
    } else if ctx.vault.paused {
        fail(IronVaultError::VaultPaused)
    } else if !asset.enabled {
        fail(IronVaultError::VaultAssetDisabled)
    } else if amount > asset.max_per_transaction {
        fail(IronVaultError::PerTransactionLimitExceeded)
    } else if spec_next_window_state(asset, amount, now) is Err {
        fail(spec_next_window_state(asset, amount, now)->Err_0)
    } else if amount > asset.timelock_threshold {
        fail(IronVaultError::TimelockRequired)
    } else if ctx.vault_token.amount < amount {
        fail(IronVaultError::InsufficientVaultFunds)
    } else if checked_sum(ctx.destination_token.amount, amount) is None {
        fail(IronVaultError::InvalidWithdrawalDestinationBalance)
    } else {
        None
    }
}

/// The charged asset, transfer and event of a successful instant withdrawal.
pub open spec fn spec_withdrawal(ctx: Withdraw, asset: VaultAsset, amount: u64, now: i64) -> WithdrawalPlan {
    let (start, spent) = spec_next_window_state(asset, amount, now)->Ok_0;
    WithdrawalPlan {
        asset: VaultAsset { window_started_at: start, window_spent: spent, ..asset },
        transfer: TokenTransfer {
            source: ctx.vault_token.key,
            destination: ctx.destination_token.key,
            mint: ctx.mint.key,
            authority: ctx.vault_key,
            token_program: ctx.token_program,
            amount,
            decimals: ctx.mint.decimals,
            source_after: (ctx.vault_token.amount - amount) as u64,
            destination_after: checked_sum(ctx.destination_token.amount, amount),
            source_mismatch: IronVaultError::InvalidVaultCustodyBalance,
            destination_mismatch: IronVaultError::InvalidWithdrawalDestinationBalance,
        },
        event: VaultWithdrawal {
            version: INITIAL_SCHEMA_VERSION,
            vault: ctx.vault_key,
            vault_asset: ctx.vault_asset_key,
            vault_token: ctx.vault_token.key,
            caller: ctx.caller,
            destination_token: ctx.destination_token.key,
            mint: ctx.mint.key,
            amount,
        },
    }
}

/// Whether the checks before authorization pass, so that an operator's
/// role account is looked up.
pub open spec fn withdraw_reaches_authorization(ctx: Withdraw, asset: VaultAsset) -> bool {
    &&& asset.vault == ctx.vault_key
    &&& asset.mint == ctx.mint.key
    &&& asset.token_program == ctx.token_program
    &&& ctx.vault_token.owner == ctx.vault_key
    &&& ctx.vault_token.mint == asset.mint
    &&& ctx.destination_token.mint == asset.mint
    &&& !ctx.protocol_config.spec_is_paused(PAUSE_VAULT_OUTFLOW)
}

/// Whether the withdrawal needs a role address that cannot be derived (the
/// runtime panics there).
pub open spec fn withdraw_role_unresolvable(ctx: Withdraw, asset: VaultAsset) -> bool {
    withdraw_reaches_authorization(ctx, asset) && role_unresolvable(
        ctx.caller == ctx.vault.authority,
        ctx.caller,
        ctx.vault_key,
        ctx.remaining_accounts@,
    )
}

fn reaches_authorization(ctx: &Withdraw, asset: &VaultAsset) -> (b: bool)
    ensures
        b == withdraw_reaches_authorization(*ctx, *asset),
{
    keys_equal(&asset.vault, &ctx.vault_key) && keys_equal(&asset.mint, &ctx.mint.key)
        && keys_equal(&asset.token_program, &ctx.token_program) && keys_equal(
        &ctx.vault_token.owner,
        &ctx.vault_key,
    ) && keys_equal(&ctx.vault_token.mint, &asset.mint) && keys_equal(
        &ctx.destination_token.mint,
        &asset.mint,
    ) && !ctx.protocol_config.is_paused(PAUSE_VAULT_OUTFLOW)
}

/// Runs [`withdraw_tokens`] where the caller's role address, if needed, can
/// be derived; none where it cannot (the runtime panics there).
pub fn try_withdraw_tokens(ctx: &Withdraw, asset: &VaultAsset, amount: u64, now: i64) -> (r: Option<
    Result<WithdrawalPlan, ProgramFailure>,
>)
    ensures
        r is None <==> withdraw_role_unresolvable(*ctx, *asset),
        r matches Some(Err(f)) ==> withdraw_failure(*ctx, *asset, amount, now) == Some(f),
        r matches Some(Ok(plan)) ==> withdraw_failure(*ctx, *asset, amount, now) is None && plan
            == spec_withdrawal(*ctx, *asset, amount, now),
{
    let intrinsic = keys_equal(&ctx.caller, &ctx.vault.authority);
    if reaches_authorization(ctx, asset) && !role_resolvable(
        intrinsic,
        &ctx.caller,
        &ctx.vault_key,
        &ctx.remaining_accounts,
    ) {
        return None;
    }
    Some(withdraw_tokens(ctx, asset, amount, now))
}

/// Withdraws exactly `amount` to the destination and charges it to the
/// asset's rolling window.
pub fn withdraw_tokens(ctx: &Withdraw, asset: &VaultAsset, amount: u64, now: i64) -> (r: Result<
    WithdrawalPlan,
    ProgramFailure,
>)
    requires
        !withdraw_role_unresolvable(*ctx, *asset),
    ensures
        r matches Err(f) ==> withdraw_failure(*ctx, *asset, amount, now) == Some(f),
        r matches Ok(plan) ==> withdraw_failure(*ctx, *asset, amount, now) is None && plan
            == spec_withdrawal(*ctx, *asset, amount, now),
{
    if !keys_equal(&asset.vault, &ctx.vault_key) || !keys_equal(&asset.mint, &ctx.mint.key) {
        return Err(ProgramFailure::ConstraintHasOne);
    }
    if !keys_equal(&asset.token_program, &ctx.token_program) {
        return Err(ProgramFailure::ConstraintRaw);
    }
    if !keys_equal(&ctx.vault_token.owner, &ctx.vault_key) {
        return Err(ProgramFailure::Vault(IronVaultError::InvalidVaultCustodyBalance));
    }
    if !keys_equal(&ctx.vault_token.mint, &asset.mint) {
        return Err(ProgramFailure::Vault(IronVaultError::InvalidWithdrawalDestinationMint));
    }
    if !keys_equal(&ctx.destination_token.mint, &asset.mint) {
        return Err(ProgramFailure::Vault(IronVaultError::InvalidWithdrawalDestinationMint));
    }
    if ctx.protocol_config.is_paused(PAUSE_VAULT_OUTFLOW) {
        return Err(ProgramFailure::Vault(IronVaultError::ProtocolPaused));
    }
    let intrinsic = keys_equal(&ctx.caller, &ctx.vault.authority);
    match authorize_operator(
        intrinsic,
        &ctx.caller,
        &ctx.vault_key,
        &ctx.remaining_accounts,
        PERMISSION_WITHDRAW,
        IronVaultError::UnexpectedWithdrawalAccounts,
        IronVaultError::MissingVaultPermission,
    ) {
        Err(e) => {
            return Err(ProgramFailure::Vault(e));
        },
        Ok(()) => {},
    }
    if amount == 0 {
        return Err(ProgramFailure::Vault(IronVaultError::InvalidVaultAmount));
    }
    if ctx.vault.paused {
        return Err(ProgramFailure::Vault(IronVaultError::VaultPaused));
    }
    if !asset.enabled {
        return Err(ProgramFailure::Vault(IronVaultError::VaultAssetDisabled));
    }
    if amount > asset.max_per_transaction {
        return Err(ProgramFailure::Vault(IronVaultError::PerTransactionLimitExceeded));
    }
    let (start, spent) = match next_window_state(asset, amount, now) {
        Ok(next) => next,
        Err(e) => {
            return Err(ProgramFailure::Vault(e));
        },
    };
    if amount > asset.timelock_threshold {
        return Err(ProgramFailure::Vault(IronVaultError::TimelockRequired));
    }
    if ctx.vault_token.amount < amount {
        return Err(ProgramFailure::Vault(IronVaultError::InsufficientVaultFunds));
    }
    let destination_after = checked_add_u64(ctx.destination_token.amount, amount);
    if destination_after.is_none() {
        return Err(ProgramFailure::Vault(IronVaultError::InvalidWithdrawalDestinationBalance));
    }
    let mut charged = *asset;
    charged.window_started_at = start;
    charged.window_spent = spent;
    Ok(
        WithdrawalPlan {
            asset: charged,
            transfer: TokenTransfer {
                source: ctx.vault_token.key,
                destination: ctx.destination_token.key,
                mint: ctx.mint.key,
                authority: ctx.vault_key,
                token_program: ctx.token_program,
                amount,
                decimals: ctx.mint.decimals,
                source_after: ctx.vault_token.amount - amount,
                destination_after,
                source_mismatch: IronVaultError::InvalidVaultCustodyBalance,
                destination_mismatch: IronVaultError::InvalidWithdrawalDestinationBalance,
            },
            event: VaultWithdrawal {
                version: INITIAL_SCHEMA_VERSION,
                vault: ctx.vault_key,
                vault_asset: ctx.vault_asset_key,
                vault_token: ctx.vault_token.key,
                caller: ctx.caller,
                destination_token: ctx.destination_token.key,
                mint: ctx.mint.key,
                amount,
            },
        },
    )
}

} // verus!
