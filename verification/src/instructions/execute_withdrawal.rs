//! `execute_withdrawal`: anyone may execute a pending request inside its
//! execution window, to the recorded recipient and for the recorded amount.
use vstd::prelude::*;

use crate::constants::{INITIAL_SCHEMA_VERSION, PAUSE_VAULT_OUTFLOW};
use crate::error::{IronVaultError, ProgramFailure};
use crate::events::WithdrawalExecuted;
use crate::instructions::release_escrow::{checked_add_u64, checked_sum};
use crate::instructions::{fail, TokenTransfer};
use crate::policy::{next_window_state, spec_next_window_state};
use crate::pubkey::{keys_equal, Pubkey};
use crate::state::{
    MintAccount,
    ProtocolConfig,
    TokenAccount,
    Vault,
    VaultAsset,
    WithdrawalRequest,
    WithdrawalStatus,
};

verus! {

/// Accounts of `execute_withdrawal`.
#[derive(Clone, Debug)]
pub struct ExecuteWithdrawal {
    /// Whoever sends the transaction; it gains no say over the outflow.
    pub caller: Pubkey,
    pub protocol_config: ProtocolConfig,
    /// Address of the vault.
    pub vault_key: Pubkey,
    pub vault: Vault,
    pub mint: MintAccount,
    /// Address of the asset state.
    pub vault_asset_key: Pubkey,
    /// Address of the request.
    pub withdrawal_request_key: Pubkey,
    /// The vault's custody token account for the mint.
    pub vault_token: TokenAccount,
    /// The supplied recipient; it must be the recorded one.
    pub recipient_token: TokenAccount,
    pub token_program: Pubkey,
}

/// The charged asset, the executed request, the transfer out of custody and
/// the event of an execution.
#[derive(Clone, Copy, Debug)]
pub struct ExecutionPlan {
    pub asset: VaultAsset,
    pub request: WithdrawalRequest,
    pub transfer: TokenTransfer,
    pub event: WithdrawalExecuted,
}

/// Why an execution is refused, checks in order: the asset's and the
/// request's account relations, custody and recipient accounts against the
/// recorded ones, the outflow pause, the request being pending, the timelock,
/// expiry, the local pause, enablement, the current per-transaction limit,
/// custody funds, the rolling window, and the recipient balance.
pub open spec fn execute_failure(
    ctx: ExecuteWithdrawal,
    asset: VaultAsset,
    request: WithdrawalRequest,
    now: i64,
) -> Option<ProgramFailure> {
    if asset.vault != ctx.vault_key || asset.mint != ctx.mint.key {
        Some(ProgramFailure::ConstraintHasOne)
    } else if asset.token_program != ctx.token_program {
        Some(ProgramFailure::ConstraintRaw)
    } else if request.vault != ctx.vault_key || request.vault_asset != ctx.vault_asset_key
        || request.mint != ctx.mint.key {
        Some(ProgramFailure::ConstraintHasOne)
    } else if request.token_program != ctx.token_program {
        Some(ProgramFailure::ConstraintRaw)
    } else if ctx.vault_token.owner != ctx.vault_key {
        fail(IronVaultError::InvalidVaultCustodyBalance)
    } else if ctx.vault_token.mint != ctx.mint.key {
        fail(IronVaultError::InvalidWithdrawalMint)
    } else if ctx.recipient_token.key != request.recipient_token_account
        || ctx.recipient_token.owner != request.recipient_owner {
        fail(IronVaultError::InvalidWithdrawalRecipient)
    } else if ctx.recipient_token.mint != request.mint {
        fail(IronVaultError::InvalidWithdrawalMint)
    } else if ctx.protocol_config.spec_is_paused(PAUSE_VAULT_OUTFLOW) {
        fail(IronVaultError::ProtocolPaused)
    } else if request.status != WithdrawalStatus::Pending {
        fail(IronVaultError::WithdrawalNotPending)
    } else if now < request.execute_after {
        fail(IronVaultError::WithdrawalTimelockActive)
    } else if request.expires_at < now {
        fail(IronVaultError::WithdrawalRequestExpired)
    } else if ctx.vault.paused {
        fail(IronVaultError::VaultPaused)
    } else if !asset.enabled {
        fail(IronVaultError::VaultAssetDisabled)
    } else if request.amount > asset.max_per_transaction {
        fail(IronVaultError::PerTransactionLimitExceeded)
    } else if ctx.vault_token.amount < request.amount {
        fail(IronVaultError::InsufficientVaultFunds)
    } else if spec_next_window_state(asset, request.amount, now) is Err {
        fail(spec_next_window_state(asset, request.amount, now)->Err_0)
    } else if checked_sum(ctx.recipient_token.amount, request.amount) is None {
        fail(IronVaultError::InvalidWithdrawalDestinationBalance)
    } else {
        None
    }
}

/// The outcome of a successful execution: the recorded amount leaves custody
/// for the recorded recipient, the window is charged, and the request is
/// executed.
pub open spec fn spec_execution(
    ctx: ExecuteWithdrawal,
    asset: VaultAsset,
    request: WithdrawalRequest,
    now: i64,
) -> ExecutionPlan {
    let (start, spent) = spec_next_window_state(asset, request.amount, now)->Ok_0;
    ExecutionPlan {
        asset: VaultAsset { window_started_at: start, window_spent: spent, ..asset },
        request: WithdrawalRequest { status: WithdrawalStatus::Executed, ..request },
        transfer: TokenTransfer {
            source: ctx.vault_token.key,
            destination: ctx.recipient_token.key,
            mint: ctx.mint.key,
            authority: ctx.vault_key,
            token_program: ctx.token_program,
            amount: request.amount,
            decimals: ctx.mint.decimals,
            source_after: (ctx.vault_token.amount - request.amount) as u64,
            destination_after: checked_sum(ctx.recipient_token.amount, request.amount),
            source_mismatch: IronVaultError::InvalidVaultCustodyBalance,
            destination_mismatch: IronVaultError::InvalidWithdrawalDestinationBalance,
        },
        event: WithdrawalExecuted {
            version: INITIAL_SCHEMA_VERSION,
            vault: ctx.vault_key,
            vault_asset: ctx.vault_asset_key,
            withdrawal_request: ctx.withdrawal_request_key,
            caller: ctx.caller,
            recipient_token_account: ctx.recipient_token.key,
            mint: ctx.mint.key,
            withdrawal_id: request.withdrawal_id,
            amount: request.amount,
        },
    }
}

/// Executes a mature pending request.
pub fn execute(
    ctx: &ExecuteWithdrawal,
    asset: &VaultAsset,
    request: &WithdrawalRequest,
    now: i64,
) -> (r: Result<ExecutionPlan, ProgramFailure>)
    ensures
        r matches Err(f) ==> execute_failure(*ctx, *asset, *request, now) == Some(f),
        r matches Ok(plan) ==> execute_failure(*ctx, *asset, *request, now) is None && plan
            == spec_execution(*ctx, *asset, *request, now),
{
    if !keys_equal(&asset.vault, &ctx.vault_key) || !keys_equal(&asset.mint, &ctx.mint.key) {
        return Err(ProgramFailure::ConstraintHasOne);
    }
    if !keys_equal(&asset.token_program, &ctx.token_program) {
        return Err(ProgramFailure::ConstraintRaw);
    }
    if !keys_equal(&request.vault, &ctx.vault_key) || !keys_equal(
        &request.vault_asset,
        &ctx.vault_asset_key,
    ) || !keys_equal(&request.mint, &ctx.mint.key) {
        return Err(ProgramFailure::ConstraintHasOne);
    }
    if !keys_equal(&request.token_program, &ctx.token_program) {
        return Err(ProgramFailure::ConstraintRaw);
    }
    if !keys_equal(&ctx.vault_token.owner, &ctx.vault_key) {
        return Err(ProgramFailure::Vault(IronVaultError::InvalidVaultCustodyBalance));
    }
    if !keys_equal(&ctx.vault_token.mint, &ctx.mint.key) {
        return Err(ProgramFailure::Vault(IronVaultError::InvalidWithdrawalMint));
    }
    if !keys_equal(&ctx.recipient_token.key, &request.recipient_token_account) || !keys_equal(
        &ctx.recipient_token.owner,
        &request.recipient_owner,
    ) {
        return Err(ProgramFailure::Vault(IronVaultError::InvalidWithdrawalRecipient));
    }
    if !keys_equal(&ctx.recipient_token.mint, &request.mint) {
        return Err(ProgramFailure::Vault(IronVaultError::InvalidWithdrawalMint));
    }
    if ctx.protocol_config.is_paused(PAUSE_VAULT_OUTFLOW) {
        return Err(ProgramFailure::Vault(IronVaultError::ProtocolPaused));
    }
    match request.status {
        WithdrawalStatus::Pending => {},
        _ => {
            return Err(ProgramFailure::Vault(IronVaultError::WithdrawalNotPending));
        },
    }
    if now < request.execute_after {
        return Err(ProgramFailure::Vault(IronVaultError::WithdrawalTimelockActive));
    }
    if request.expires_at < now {
        return Err(ProgramFailure::Vault(IronVaultError::WithdrawalRequestExpired));
    }
    if ctx.vault.paused {
        return Err(ProgramFailure::Vault(IronVaultError::VaultPaused));
    }
    if !asset.enabled {
        return Err(ProgramFailure::Vault(IronVaultError::VaultAssetDisabled));
    }
    let amount = request.amount;
    if amount > asset.max_per_transaction {
        return Err(ProgramFailure::Vault(IronVaultError::PerTransactionLimitExceeded));
    }
    if ctx.vault_token.amount < amount {
        return Err(ProgramFailure::Vault(IronVaultError::InsufficientVaultFunds));
    }
    let (start, spent) = match next_window_state(asset, amount, now) {
        Ok(next) => next,
        Err(e) => {
            return Err(ProgramFailure::Vault(e));
        },
    };
    let destination_after = checked_add_u64(ctx.recipient_token.amount, amount);
    if destination_after.is_none() {
        return Err(ProgramFailure::Vault(IronVaultError::InvalidWithdrawalDestinationBalance));
    }
    let mut charged = *asset;
    charged.window_started_at = start;
    charged.window_spent = spent;
    let mut executed = *request;
    executed.status = WithdrawalStatus::Executed;
    Ok(
        ExecutionPlan {
            asset: charged,
            request: executed,
            transfer: TokenTransfer {
                source: ctx.vault_token.key,
                destination: ctx.recipient_token.key,
                mint: ctx.mint.key,
                authority: ctx.vault_key,
                token_program: ctx.token_program,
                amount,
                decimals: ctx.mint.decimals,
                source_after: ctx.vault_token.amount - amount,
                destination_after,
                source_mismatch: IronVaultError::InvalidVaultCustodyBalance,
                destination_mismatch: IronVaultError::InvalidWithdrawalDestinationBalance,
            },
            event: WithdrawalExecuted {
                version: INITIAL_SCHEMA_VERSION,
                vault: ctx.vault_key,
                vault_asset: ctx.vault_asset_key,
                withdrawal_request: ctx.withdrawal_request_key,
                caller: ctx.caller,
                recipient_token_account: ctx.recipient_token.key,
                mint: ctx.mint.key,
                withdrawal_id: request.withdrawal_id,
                amount,
            },
        },
    )
}

} // verus!
