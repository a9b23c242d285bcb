//! `request_withdrawal`: records a timelocked withdrawal above the asset's
//! threshold, with a fixed amount, recipient and execution window.
use vstd::prelude::*;

use crate::constants::{INITIAL_SCHEMA_VERSION, PAUSE_VAULT_OUTFLOW, PERMISSION_REQUEST_WITHDRAWAL};
use crate::error::{IronVaultError, ProgramFailure};
use crate::events::WithdrawalRequested;
use crate::instructions::{
    authorize_operator,
    fail,
    operator_failure,
    role_resolvable,
    role_unresolvable,
};
use crate::policy::fits_i64;
use crate::pubkey::{keys_equal, Pubkey};
use crate::state::{
    AccountInfo,
    ProtocolConfig,
    TokenAccount,
    Vault,
    VaultAsset,
    WithdrawalRequest,
    WithdrawalStatus,
};

verus! {

/// Accounts of `request_withdrawal`.
#[derive(Clone, Debug)]
pub struct RequestWithdrawal {
    pub proposer: Pubkey,
    pub protocol_config: ProtocolConfig,
    /// Address of the vault.
    pub vault_key: Pubkey,
    /// The mint being withdrawn.
    pub mint: Pubkey,
    /// Address of the asset state.
    pub vault_asset_key: Pubkey,
    /// The token account that will receive the tokens.
    pub recipient_token: TokenAccount,
    /// Address of the request, at the vault's next withdrawal id.
    pub withdrawal_request: Pubkey,
    /// Bump of the request address.
    pub withdrawal_request_bump: u8,
    /// Extra accounts: none for the authority, the proposer's role otherwise.
    pub remaining_accounts: Vec<AccountInfo>,
}

/// A new pending request and its event.
#[derive(Clone, Copy, Debug)]
pub struct RequestCreation {
    pub request: WithdrawalRequest,
    pub event: WithdrawalRequested,
}

/// The earliest execution time of a request made at `now`.
pub open spec fn request_execute_after(asset: VaultAsset, now: i64) -> int {
    now + asset.timelock_seconds
}

/// The last execution time of a request made at `now`.
pub open spec fn request_expires_at(asset: VaultAsset, now: i64) -> int {
    request_execute_after(asset, now) + asset.request_execution_window_seconds
}

/// The authorization verdict for the proposer.
pub open spec fn request_authorization(ctx: RequestWithdrawal, vault: Vault) -> Option<IronVaultError> {
    operator_failure(
        ctx.proposer == vault.authority,
        ctx.proposer,
        ctx.vault_key,
        ctx.remaining_accounts@,
        PERMISSION_REQUEST_WITHDRAWAL,
        IronVaultError::UnexpectedRequestAccounts,
        IronVaultError::MissingVaultPermission,
    )
}

/// Why a request is refused, checks in order: account relations, the
/// outflow pause, authorization, the amount, the local pause, enablement,
/// the per-transaction limit, the amount not exceeding the threshold, an
/// unrepresentable or empty execution window, and an exhausted id counter.
pub open spec fn request_failure(
    ctx: RequestWithdrawal,
    vault: Vault,
    asset: VaultAsset,
    amount: u64,
    now: i64,
) -> Option<ProgramFailure> {
    if asset.vault != ctx.vault_key || asset.mint != ctx.mint {
        Some(ProgramFailure::ConstraintHasOne)
    } else if ctx.recipient_token.mint != ctx.mint {
        fail(IronVaultError::InvalidWithdrawalMint)
    } else if ctx.protocol_config.spec_is_paused(PAUSE_VAULT_OUTFLOW) {
        fail(IronVaultError::ProtocolPaused)
    } else if request_authorization(ctx, vault) is Some {
        fail(request_authorization(ctx, vault)->0)
    } else if amount == 0 {
        fail(IronVaultError::InvalidVaultAmount)
    } else if vault.paused {
        fail(IronVaultError::VaultPaused)
    } else if !asset.enabled {
        fail(IronVaultError::VaultAssetDisabled)
    } else if amount > asset.max_per_transaction {
        fail(IronVaultError::PerTransactionLimitExceeded)
    } else if amount <= asset.timelock_threshold {
        fail(IronVaultError::TimelockNotRequired)
    } else if !fits_i64(request_execute_after(asset, now)) || !fits_i64(
        request_expires_at(asset, now),
    ) {
        fail(IronVaultError::WithdrawalTimingOverflow)
    } else if request_execute_after(asset, now) <= now || request_expires_at(asset, now)
        <= request_execute_after(asset, now) {
        fail(IronVaultError::InvalidWithdrawalPolicy)
    } else if vault.next_withdrawal_id == u64::MAX {
        fail(IronVaultError::WithdrawalPolicyOverflow)
    } else {
        None
    }
}

/// The request and event of a successful `request_withdrawal`, which takes
/// the vault's next withdrawal id.
pub open spec fn spec_request_creation(
    ctx: RequestWithdrawal,
    vault: Vault,
    asset: VaultAsset,
    amount: u64,
    now: i64,
) -> RequestCreation {
    let request = WithdrawalRequest {
        vault: ctx.vault_key,
        vault_asset: ctx.vault_asset_key,
        mint: ctx.mint,
        token_program: asset.token_program,
        proposer: ctx.proposer,
        recipient_owner: ctx.recipient_token.owner,
        recipient_token_account: ctx.recipient_token.key,
        withdrawal_id: vault.next_withdrawal_id,
        amount,
        created_at: now,
        execute_after: request_execute_after(asset, now) as i64,
        expires_at: request_expires_at(asset, now) as i64,
        status: WithdrawalStatus::Pending,
        bump: ctx.withdrawal_request_bump,
    };
    RequestCreation {
        request,
        event: WithdrawalRequested {
            version: INITIAL_SCHEMA_VERSION,
            vault: request.vault,
            vault_asset: request.vault_asset,
            withdrawal_request: ctx.withdrawal_request,
            proposer: request.proposer,
            recipient_owner: request.recipient_owner,
            recipient_token_account: request.recipient_token_account,
            mint: request.mint,
            withdrawal_id: request.withdrawal_id,
            amount,
            created_at: now,
            execute_after: request.execute_after,
            expires_at: request.expires_at,
        },
    }
}

/// Whether the checks before authorization pass, so that an operator's
/// role account is looked up.
pub open spec fn request_reaches_authorization(ctx: RequestWithdrawal, asset: VaultAsset) -> bool {
    &&& asset.vault == ctx.vault_key
    &&& asset.mint == ctx.mint
    &&& ctx.recipient_token.mint == ctx.mint
    &&& !ctx.protocol_config.spec_is_paused(PAUSE_VAULT_OUTFLOW)
}

/// Whether the request needs a role address that cannot be derived (the
/// runtime panics there).
pub open spec fn request_role_unresolvable(
    ctx: RequestWithdrawal,
    vault: Vault,
    asset: VaultAsset,
) -> bool {
    request_reaches_authorization(ctx, asset) && role_unresolvable(
        ctx.proposer == vault.authority,
        ctx.proposer,
        ctx.vault_key,
        ctx.remaining_accounts@,
    )
}

fn reaches_authorization(ctx: &RequestWithdrawal, asset: &VaultAsset) -> (b: bool)
    ensures
        b == request_reaches_authorization(*ctx, *asset),
{
    keys_equal(&asset.vault, &ctx.vault_key) && keys_equal(&asset.mint, &ctx.mint) && keys_equal(
        &ctx.recipient_token.mint,
        &ctx.mint,
    ) && !ctx.protocol_config.is_paused(PAUSE_VAULT_OUTFLOW)
}

/// Runs [`request`] where the proposer's role address, if needed, can be
/// derived; none, with the vault unchanged, where it cannot (the runtime
/// panics there).
pub fn try_request(
    ctx: &RequestWithdrawal,
    vault: &mut Vault,
    asset: &VaultAsset,
    amount: u64,
    now: i64,
) -> (r: Option<Result<RequestCreation, ProgramFailure>>)
    ensures
        r is None <==> request_role_unresolvable(*ctx, *old(vault), *asset),
        r is None ==> *final(vault) == *old(vault),
        r matches Some(Err(f)) ==> request_failure(*ctx, *old(vault), *asset, amount, now) == Some(
            f,
        ) && *final(vault) == *old(vault),
        r matches Some(Ok(created)) ==> {
            &&& request_failure(*ctx, *old(vault), *asset, amount, now) is None
            &&& created == spec_request_creation(*ctx, *old(vault), *asset, amount, now)
            &&& *final(vault) == Vault {
                next_withdrawal_id: (old(vault).next_withdrawal_id + 1) as u64,
                ..*old(vault)
            }
        },
{
    let intrinsic = keys_equal(&ctx.proposer, &vault.authority);
    if reaches_authorization(ctx, asset) && !role_resolvable(
        intrinsic,
        &ctx.proposer,
        &ctx.vault_key,
        &ctx.remaining_accounts,
    ) {
        return None;
    }
    Some(request(ctx, vault, asset, amount, now))
}

/// Creates a pending request at the vault's next withdrawal id and advances
/// the id; no tokens move and no window is charged.
pub fn request(
    ctx: &RequestWithdrawal,
    vault: &mut Vault,
    asset: &VaultAsset,
    amount: u64,
    now: i64,
) -> (r: Result<RequestCreation, ProgramFailure>)
    requires
        !request_role_unresolvable(*ctx, *old(vault), *asset),
    ensures
        r matches Err(f) ==> request_failure(*ctx, *old(vault), *asset, amount, now) == Some(f)
            && *final(vault) == *old(vault),
        r matches Ok(created) ==> {
            &&& request_failure(*ctx, *old(vault), *asset, amount, now) is None
            &&& created == spec_request_creation(*ctx, *old(vault), *asset, amount, now)
            &&& *final(vault) == Vault {
                next_withdrawal_id: (old(vault).next_withdrawal_id + 1) as u64,
                ..*old(vault)
            }
        },
{
    if !keys_equal(&asset.vault, &ctx.vault_key) || !keys_equal(&asset.mint, &ctx.mint) {
        return Err(ProgramFailure::ConstraintHasOne);
    }
    if !keys_equal(&ctx.recipient_token.mint, &ctx.mint) {
        return Err(ProgramFailure::Vault(IronVaultError::InvalidWithdrawalMint));
    }
    if ctx.protocol_config.is_paused(PAUSE_VAULT_OUTFLOW) {
        return Err(ProgramFailure::Vault(IronVaultError::ProtocolPaused));
    }
    let intrinsic = keys_equal(&ctx.proposer, &vault.authority);
    match authorize_operator(
        intrinsic,
        &ctx.proposer,
        &ctx.vault_key,
        &ctx.remaining_accounts,
        PERMISSION_REQUEST_WITHDRAWAL,
        IronVaultError::UnexpectedRequestAccounts,
        IronVaultError::MissingVaultPermission,
    ) {
        Err(e) => {
            return Err(ProgramFailure::Vault(e));
        },
        Ok(()) => {},
    }
    if amount == 0 {
        return Err(ProgramFailure::Vault(IronVaultError::InvalidVaultAmount));
    }
    if vault.paused {
        return Err(ProgramFailure::Vault(IronVaultError::VaultPaused));
    }
    if !asset.enabled {
        return Err(ProgramFailure::Vault(IronVaultError::VaultAssetDisabled));
    }
    if amount > asset.max_per_transaction {
        return Err(ProgramFailure::Vault(IronVaultError::PerTransactionLimitExceeded));
    }
    if amount <= asset.timelock_threshold {
        return Err(ProgramFailure::Vault(IronVaultError::TimelockNotRequired));
    }
    let execute_after = match now.checked_add(asset.timelock_seconds) {
        Some(t) => t,
        None => {
            return Err(ProgramFailure::Vault(IronVaultError::WithdrawalTimingOverflow));
        },
    };
    let expires_at = match execute_after.checked_add(asset.request_execution_window_seconds) {
        Some(t) => t,
        None => {
            return Err(ProgramFailure::Vault(IronVaultError::WithdrawalTimingOverflow));
        },
    };
    if execute_after <= now || expires_at <= execute_after {
        return Err(ProgramFailure::Vault(IronVaultError::InvalidWithdrawalPolicy));
    }
    let withdrawal_id = vault.next_withdrawal_id;
    if withdrawal_id == u64::MAX {
        return Err(ProgramFailure::Vault(IronVaultError::WithdrawalPolicyOverflow));
    }
    vault.next_withdrawal_id = withdrawal_id + 1;
    let request = WithdrawalRequest {
        vault: ctx.vault_key,
        vault_asset: ctx.vault_asset_key,
        mint: ctx.mint,
        token_program: asset.token_program,
        proposer: ctx.proposer,
        recipient_owner: ctx.recipient_token.owner,
        recipient_token_account: ctx.recipient_token.key,
        withdrawal_id,
        amount,
        created_at: now,
        execute_after,
        expires_at,
        status: WithdrawalStatus::Pending,
        bump: ctx.withdrawal_request_bump,
    };
    Ok(
        RequestCreation {
            request,
            event: WithdrawalRequested {
                version: INITIAL_SCHEMA_VERSION,
                vault: request.vault,
                vault_asset: request.vault_asset,
                withdrawal_request: ctx.withdrawal_request,
                proposer: request.proposer,
                recipient_owner: request.recipient_owner,
                recipient_token_account: request.recipient_token_account,
                mint: request.mint,
                withdrawal_id,
                amount,
                created_at: now,
                execute_after,
                expires_at,
            },
        },
    )
}

} // verus!
