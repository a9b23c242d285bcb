//! `cancel_withdrawal`: ends a pending request without moving tokens.
use vstd::prelude::*;

use crate::constants::{INITIAL_SCHEMA_VERSION, PERMISSION_CANCEL_WITHDRAWAL};
use crate::error::{IronVaultError, ProgramFailure};
use crate::events::WithdrawalCancelled;
use crate::instructions::{
    authorize_operator,
    fail,
    operator_failure,
    role_resolvable,
    role_unresolvable,
};
use crate::pubkey::{keys_equal, Pubkey};
use crate::state::{AccountInfo, Vault, WithdrawalRequest, WithdrawalStatus};

verus! {

/// Accounts of `cancel_withdrawal`.
#[derive(Clone, Debug)]
pub struct CancelWithdrawal {
    pub caller: Pubkey,
    /// Address of the vault.
    pub vault_key: Pubkey,
    pub vault: Vault,
    /// Address of the request.
    pub withdrawal_request_key: Pubkey,
    /// Extra accounts: none for the authority, the guardian or the proposer,
    /// the caller's role otherwise.
    pub remaining_accounts: Vec<AccountInfo>,
}

/// Whether the caller may cancel without a role: the vault authority, the
/// vault guardian, or the request's proposer.
pub open spec fn intrinsic_canceller(ctx: CancelWithdrawal, request: WithdrawalRequest) -> bool {
    ctx.caller == ctx.vault.authority || ctx.caller == ctx.vault.guardian || ctx.caller
        == request.proposer
}

/// The authorization verdict for the caller.
pub open spec fn cancel_authorization(ctx: CancelWithdrawal, request: WithdrawalRequest) -> Option<
    IronVaultError,
> {
    operator_failure(
        intrinsic_canceller(ctx, request),
        ctx.caller,
        ctx.vault_key,
        ctx.remaining_accounts@,
        PERMISSION_CANCEL_WITHDRAWAL,
        IronVaultError::UnexpectedCancellationAccounts,
        IronVaultError::UnauthorizedWithdrawalCancellation,
    )
}

/// Why a cancellation is refused, checks in order: the request belongs to
/// another vault, it is no longer pending, or the caller is not authorized.
pub open spec fn cancel_failure(ctx: CancelWithdrawal, request: WithdrawalRequest) -> Option<
    ProgramFailure,
> {
    if request.vault != ctx.vault_key {
        Some(ProgramFailure::ConstraintHasOne)
    } else if request.status != WithdrawalStatus::Pending {
        fail(IronVaultError::WithdrawalNotPending)
    } else if cancel_authorization(ctx, request) is Some {
        fail(cancel_authorization(ctx, request)->0)
    } else {
        None
    }
}

/// The event of a successful cancellation.
pub open spec fn spec_cancel_event(ctx: CancelWithdrawal, request: WithdrawalRequest) -> WithdrawalCancelled {
    WithdrawalCancelled {
        version: INITIAL_SCHEMA_VERSION,
        vault: ctx.vault_key,
        withdrawal_request: ctx.withdrawal_request_key,
        caller: ctx.caller,
        proposer: request.proposer,
        withdrawal_id: request.withdrawal_id,
    }
}

/// Whether the cancellation needs a role address that cannot be derived:
/// the request is this vault's and pending, and the caller is an operator
/// whose role address has no bump (the runtime panics there).
pub open spec fn cancel_role_unresolvable(ctx: CancelWithdrawal, request: WithdrawalRequest) -> bool {
    &&& request.vault == ctx.vault_key
    &&& request.status == WithdrawalStatus::Pending
    &&& role_unresolvable(
        intrinsic_canceller(ctx, request),
        ctx.caller,
        ctx.vault_key,
        ctx.remaining_accounts@,
    )
}

/// Runs [`cancel`] where the caller's role address, if needed, can be
/// derived; none, with the request unchanged, where it cannot (the runtime
/// panics there).
pub fn try_cancel(ctx: &CancelWithdrawal, request: &mut WithdrawalRequest) -> (r: Option<
    Result<WithdrawalCancelled, ProgramFailure>,
>)
    ensures
        r is None <==> cancel_role_unresolvable(*ctx, *old(request)),
        r is None ==> *final(request) == *old(request),
        r matches Some(Err(f)) ==> cancel_failure(*ctx, *old(request)) == Some(f)
            && *final(request) == *old(request),
        r matches Some(Ok(event)) ==> {
            &&& cancel_failure(*ctx, *old(request)) is None
            &&& *final(request) == WithdrawalRequest {
                status: WithdrawalStatus::Cancelled,
                ..*old(request)
            }
            &&& event == spec_cancel_event(*ctx, *old(request))
        },
{
    let pending = match request.status {
        WithdrawalStatus::Pending => true,
        _ => false,
    };
    let intrinsic = keys_equal(&ctx.caller, &ctx.vault.authority) || keys_equal(
        &ctx.caller,
        &ctx.vault.guardian,
    ) || keys_equal(&ctx.caller, &request.proposer);
    if keys_equal(&request.vault, &ctx.vault_key) && pending && !role_resolvable(
        intrinsic,
        &ctx.caller,
        &ctx.vault_key,
        &ctx.remaining_accounts,
    ) {
        return None;
    }
    Some(cancel(ctx, request))
}

/// Cancels a pending request; only its status changes.
pub fn cancel(ctx: &CancelWithdrawal, request: &mut WithdrawalRequest) -> (r: Result<
    WithdrawalCancelled,
    ProgramFailure,
>)
    requires
        !cancel_role_unresolvable(*ctx, *old(request)),
    ensures
        r matches Err(f) ==> cancel_failure(*ctx, *old(request)) == Some(f) && *final(request)
            == *old(request),
        r matches Ok(event) ==> {
            &&& cancel_failure(*ctx, *old(request)) is None
            &&& *final(request) == WithdrawalRequest {
                status: WithdrawalStatus::Cancelled,
                ..*old(request)
            }
            &&& event == spec_cancel_event(*ctx, *old(request))
        },
{
    if !keys_equal(&request.vault, &ctx.vault_key) {
        return Err(ProgramFailure::ConstraintHasOne);
    }
    match request.status {
        WithdrawalStatus::Pending => {},
        _ => {
            return Err(ProgramFailure::Vault(IronVaultError::WithdrawalNotPending));
        },
    }
    let intrinsic = keys_equal(&ctx.caller, &ctx.vault.authority) || keys_equal(
        &ctx.caller,
        &ctx.vault.guardian,
    ) || keys_equal(&ctx.caller, &request.proposer);
    match authorize_operator(
        intrinsic,
        &ctx.caller,
        &ctx.vault_key,
        &ctx.remaining_accounts,
        PERMISSION_CANCEL_WITHDRAWAL,
        IronVaultError::UnexpectedCancellationAccounts,
        IronVaultError::UnauthorizedWithdrawalCancellation,
    ) {
        Err(e) => {
            return Err(ProgramFailure::Vault(e));
        },
        Ok(()) => {},
    }
    request.status = WithdrawalStatus::Cancelled;
    Ok(
        WithdrawalCancelled {
            version: INITIAL_SCHEMA_VERSION,
            vault: ctx.vault_key,
            withdrawal_request: ctx.withdrawal_request_key,
            caller: ctx.caller,
            proposer: request.proposer,
            withdrawal_id: request.withdrawal_id,
        },
    )
}

/// Law: the vault authority, the guardian and the request's own proposer may
/// always cancel a pending request of the vault, supplying no role account;
/// the cancellation is accepted and needs no role address.
pub proof fn lemma_proposer_authority_and_guardian_cancel(
    ctx: CancelWithdrawal,
    request: WithdrawalRequest,
)
    requires
        request.vault == ctx.vault_key,
        request.status == WithdrawalStatus::Pending,
        ctx.remaining_accounts@.len() == 0,
        ctx.caller == request.proposer || ctx.caller == ctx.vault.authority || ctx.caller
            == ctx.vault.guardian,
    ensures
        cancel_failure(ctx, request) is None,
        !cancel_role_unresolvable(ctx, request),
{
}

} // verus!
