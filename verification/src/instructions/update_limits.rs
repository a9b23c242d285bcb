//! `update_limits`: replaces one asset's withdrawal policy without erasing a
//! live window's spend.
use vstd::prelude::*;

use crate::constants::{INITIAL_SCHEMA_VERSION, PAUSE_VAULT_CONFIG, PERMISSION_MANAGE_LIMITS};
use crate::error::{IronVaultError, ProgramFailure};
use crate::events::VaultLimitsUpdated;
use crate::instructions::{
    authorize_operator,
    check_mint,
    fail,
    mint_failure,
    operator_failure,
    role_resolvable,
    role_unresolvable,
};
use crate::policy::{fits_i64, policy_is_valid, spec_policy_is_valid, window_end};
use crate::pubkey::{keys_equal, Pubkey};
use crate::state::{AccountInfo, MintAccount, ProtocolConfig, Vault, VaultAsset};

verus! {

/// Accounts of `update_limits`.
#[derive(Clone, Debug)]
pub struct UpdateLimits {
    pub caller: Pubkey,
    pub protocol_config: ProtocolConfig,
    /// Address of the vault.
    pub vault_key: Pubkey,
    pub vault: Vault,
    pub mint: MintAccount,
    /// Address of the asset state.
    pub vault_asset_key: Pubkey,
    /// Extra accounts: none for the authority, the caller's role otherwise.
    pub remaining_accounts: Vec<AccountInfo>,
}

/// A proposed withdrawal policy.
#[derive(Clone, Copy, Debug)]
pub struct LimitPolicy {
    pub max_per_transaction: u64,
    pub window_limit: u64,
    pub window_seconds: i64,
    pub timelock_threshold: u64,
    pub timelock_seconds: i64,
    pub request_execution_window_seconds: i64,
}

/// Whether the proposed policy is valid.
pub open spec fn limit_policy_valid(p: LimitPolicy) -> bool {
    spec_policy_is_valid(
        p.max_per_transaction,
        p.window_limit,
        p.window_seconds,
        p.timelock_threshold,
        p.timelock_seconds,
        p.request_execution_window_seconds,
    )
}

/// Whether the update restarts the window at `now` with nothing spent: the
/// asset had no window yet, or the window duration changes (allowed only once
/// the current window has elapsed).
pub open spec fn restarts_window(asset: VaultAsset, p: LimitPolicy) -> bool {
    asset.window_seconds == 0 || asset.window_seconds != p.window_seconds
}

/// Why an update is refused, checks in order: the mint checks, account
/// relations, the configuration pause, authorization, the policy, and a
/// duration change while the current window is live.
pub open spec fn update_failure(ctx: UpdateLimits, asset: VaultAsset, p: LimitPolicy, now: i64) -> Option<
    ProgramFailure,
> {
    if mint_failure(ctx.mint, asset.token_program) is Some {
        mint_failure(ctx.mint, asset.token_program)
    } else if asset.vault != ctx.vault_key || asset.mint != ctx.mint.key {
        Some(ProgramFailure::ConstraintHasOne)
    } else if ctx.protocol_config.spec_is_paused(PAUSE_VAULT_CONFIG) {
        fail(IronVaultError::ProtocolPaused)
    } else if operator_failure(
        ctx.caller == ctx.vault.authority,
        ctx.caller,
        ctx.vault_key,
        ctx.remaining_accounts@,
        PERMISSION_MANAGE_LIMITS,
        IronVaultError::UnexpectedLimitAccounts,
        IronVaultError::MissingVaultPermission,
    ) is Some {
        fail(
            operator_failure(
                ctx.caller == ctx.vault.authority,
                ctx.caller,
                ctx.vault_key,
                ctx.remaining_accounts@,
                PERMISSION_MANAGE_LIMITS,
                IronVaultError::UnexpectedLimitAccounts,
                IronVaultError::MissingVaultPermission,
            )->0,
        )
    } else if !limit_policy_valid(p) {
        fail(IronVaultError::InvalidWithdrawalPolicy)
    } else if asset.window_seconds != 0 && asset.window_seconds != p.window_seconds && !fits_i64(
        window_end(asset),
    ) {
        fail(IronVaultError::WithdrawalPolicyOverflow)
    } else if asset.window_seconds != 0 && asset.window_seconds != p.window_seconds && now
        < window_end(asset) {
        fail(IronVaultError::LiveWindowDurationChange)
    } else {
        None
    }
}

/// The asset after a successful update.
pub open spec fn spec_updated_asset(asset: VaultAsset, p: LimitPolicy, now: i64) -> VaultAsset {
    VaultAsset {
        max_per_transaction: p.max_per_transaction,
        window_limit: p.window_limit,
        window_seconds: p.window_seconds,
        timelock_threshold: p.timelock_threshold,
        timelock_seconds: p.timelock_seconds,
        request_execution_window_seconds: p.request_execution_window_seconds,
        window_started_at: if restarts_window(asset, p) {
            now
        } else {
            asset.window_started_at
        },
        window_spent: if restarts_window(asset, p) {
            0
        } else {
            asset.window_spent
        },
        ..asset
    }
}

/// The event of a successful update.
pub open spec fn spec_limits_event(ctx: UpdateLimits, updated: VaultAsset) -> VaultLimitsUpdated {
    VaultLimitsUpdated {
        version: INITIAL_SCHEMA_VERSION,
        vault: ctx.vault_key,
        vault_asset: ctx.vault_asset_key,
        mint: updated.mint,
        caller: ctx.caller,
        max_per_transaction: updated.max_per_transaction,
        window_limit: updated.window_limit,
        window_seconds: updated.window_seconds,
        timelock_threshold: updated.timelock_threshold,
        timelock_seconds: updated.timelock_seconds,
        request_execution_window_seconds: updated.request_execution_window_seconds,
        window_started_at: updated.window_started_at,
        window_spent: updated.window_spent,
    }
}

/// Whether the checks before authorization pass, so that an operator's
/// role account is looked up.
pub open spec fn update_reaches_authorization(ctx: UpdateLimits, asset: VaultAsset) -> bool {
    &&& mint_failure(ctx.mint, asset.token_program) is None
    &&& asset.vault == ctx.vault_key
    &&& asset.mint == ctx.mint.key
    &&& !ctx.protocol_config.spec_is_paused(PAUSE_VAULT_CONFIG)
}

/// Whether the update needs a role address that cannot be derived (the
/// runtime panics there).
pub open spec fn update_role_unresolvable(ctx: UpdateLimits, asset: VaultAsset) -> bool {
    update_reaches_authorization(ctx, asset) && role_unresolvable(
        ctx.caller == ctx.vault.authority,
        ctx.caller,
        ctx.vault_key,
        ctx.remaining_accounts@,
    )
}

fn reaches_authorization(ctx: &UpdateLimits, asset: &VaultAsset) -> (b: bool)
    ensures
        b == update_reaches_authorization(*ctx, *asset),
{
    check_mint(&ctx.mint, &asset.token_program).is_ok() && keys_equal(&asset.vault, &ctx.vault_key)
        && keys_equal(&asset.mint, &ctx.mint.key) && !ctx.protocol_config.is_paused(
        PAUSE_VAULT_CONFIG,
    )
}

/// Runs [`update`] where the caller's role address, if needed, can be
/// derived; none, with the asset unchanged, where it cannot (the runtime
/// panics there).
pub fn try_update(ctx: &UpdateLimits, asset: &mut VaultAsset, p: LimitPolicy, now: i64) -> (r: Option<
    Result<VaultLimitsUpdated, ProgramFailure>,
>)
    ensures
        r is None <==> update_role_unresolvable(*ctx, *old(asset)),
        r is None ==> *final(asset) == *old(asset),
        r matches Some(Err(f)) ==> update_failure(*ctx, *old(asset), p, now) == Some(f)
            && *final(asset) == *old(asset),
        r matches Some(Ok(event)) ==> {
            &&& update_failure(*ctx, *old(asset), p, now) is None
            &&& *final(asset) == spec_updated_asset(*old(asset), p, now)
            &&& event == spec_limits_event(*ctx, *final(asset))
        },
{
    let intrinsic = keys_equal(&ctx.caller, &ctx.vault.authority);
    if reaches_authorization(ctx, asset) && !role_resolvable(
        intrinsic,
        &ctx.caller,
        &ctx.vault_key,
        &ctx.remaining_accounts,
    ) {
        return None;
    }
    Some(update(ctx, asset, p, now))
}

/// Replaces the policy; a live window keeps its start and spend, and its
/// duration cannot change until it has elapsed.
pub fn update(ctx: &UpdateLimits, asset: &mut VaultAsset, p: LimitPolicy, now: i64) -> (r: Result<
    VaultLimitsUpdated,
    ProgramFailure,
>)
    requires
        !update_role_unresolvable(*ctx, *old(asset)),
    ensures
        r matches Err(f) ==> update_failure(*ctx, *old(asset), p, now) == Some(f) && *final(asset)
            == *old(asset),
        r matches Ok(event) ==> {
            &&& update_failure(*ctx, *old(asset), p, now) is None
            &&& *final(asset) == spec_updated_asset(*old(asset), p, now)
            &&& event == spec_limits_event(*ctx, *final(asset))
        },
{
    check_mint(&ctx.mint, &asset.token_program)?;
    if !keys_equal(&asset.vault, &ctx.vault_key) || !keys_equal(&asset.mint, &ctx.mint.key) {
        return Err(ProgramFailure::ConstraintHasOne);
    }
    if ctx.protocol_config.is_paused(PAUSE_VAULT_CONFIG) {
        return Err(ProgramFailure::Vault(IronVaultError::ProtocolPaused));
    }
    let intrinsic = keys_equal(&ctx.caller, &ctx.vault.authority);
    match authorize_operator(
        intrinsic,
        &ctx.caller,
        &ctx.vault_key,
        &ctx.remaining_accounts,
        PERMISSION_MANAGE_LIMITS,
        IronVaultError::UnexpectedLimitAccounts,
        IronVaultError::MissingVaultPermission,
    ) {
        Err(e) => {
            return Err(ProgramFailure::Vault(e));
        },
        Ok(()) => {},
    }
    if !policy_is_valid(
        p.max_per_transaction,
        p.window_limit,
        p.window_seconds,
        p.timelock_threshold,
        p.timelock_seconds,
        p.request_execution_window_seconds,
    ) {
        return Err(ProgramFailure::Vault(IronVaultError::InvalidWithdrawalPolicy));
    }
    if asset.window_seconds == 0 {
        asset.window_started_at = now;
        asset.window_spent = 0;
    } else if asset.window_seconds != p.window_seconds {
        let current_window_ends = match asset.window_started_at.checked_add(asset.window_seconds) {
            Some(end) => end,
            None => {
                return Err(ProgramFailure::Vault(IronVaultError::WithdrawalPolicyOverflow));
            },
        };
        if now < current_window_ends {
            return Err(ProgramFailure::Vault(IronVaultError::LiveWindowDurationChange));
        }
        asset.window_started_at = now;
        asset.window_spent = 0;
    }
    asset.max_per_transaction = p.max_per_transaction;
    asset.window_limit = p.window_limit;
    asset.window_seconds = p.window_seconds;
    asset.timelock_threshold = p.timelock_threshold;
    asset.timelock_seconds = p.timelock_seconds;
    asset.request_execution_window_seconds = p.request_execution_window_seconds;
    Ok(
        VaultLimitsUpdated {
            version: INITIAL_SCHEMA_VERSION,
            vault: ctx.vault_key,
            vault_asset: ctx.vault_asset_key,
            mint: asset.mint,
            caller: ctx.caller,
            max_per_transaction: asset.max_per_transaction,
            window_limit: asset.window_limit,
            window_seconds: asset.window_seconds,
            timelock_threshold: asset.timelock_threshold,
            timelock_seconds: asset.timelock_seconds,
            request_execution_window_seconds: asset.request_execution_window_seconds,
            window_started_at: asset.window_started_at,
            window_spent: asset.window_spent,
        },
    )
}

/// Law: a policy update cannot refill a spent window. An accepted update
/// that keeps a non-zero window duration keeps the window's start and spend;
/// the window restarts at `now` with nothing spent only when the asset had no
/// window yet or the duration changes, and a duration change is accepted
/// only once the current window has run out. The new limits are those given,
/// and the asset's identity is kept.
pub proof fn lemma_update_keeps_the_live_window(
    ctx: UpdateLimits,
    asset: VaultAsset,
    p: LimitPolicy,
    now: i64,
)
    requires
        update_failure(ctx, asset, p, now) is None,
    ensures
        ({
            let updated = spec_updated_asset(asset, p, now);
            &&& asset.window_seconds != 0 && p.window_seconds == asset.window_seconds ==> {
                &&& updated.window_started_at == asset.window_started_at
                &&& updated.window_spent == asset.window_spent
            }
            &&& asset.window_seconds == 0 || p.window_seconds != asset.window_seconds ==> {
                &&& updated.window_started_at == now
                &&& updated.window_spent == 0
            }
            &&& asset.window_seconds != 0 && p.window_seconds != asset.window_seconds ==> now
                >= window_end(asset)
            &&& updated.max_per_transaction == p.max_per_transaction
            &&& updated.window_limit == p.window_limit
            &&& updated.window_seconds == p.window_seconds
            &&& updated.timelock_threshold == p.timelock_threshold
            &&& updated.timelock_seconds == p.timelock_seconds
            &&& updated.request_execution_window_seconds == p.request_execution_window_seconds
            &&& updated.vault == asset.vault
            &&& updated.mint == asset.mint
            &&& updated.token_program == asset.token_program
            &&& updated.enabled == asset.enabled
            &&& updated.bump == asset.bump
        }),
{
}

} // verus!
