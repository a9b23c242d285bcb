//! Properties that span several instructions: the escrow lifecycle, vault
//! custody and the withdrawal-request lifecycle.
use vstd::prelude::*;

use crate::accounts::{lemma_role_assignment_roundtrip, spec_encode_role_assignment};
use crate::constants::{
    PAUSE_VAULT_CONFIG,
    PAUSE_VAULT_OUTFLOW,
    PERMISSION_CANCEL_WITHDRAWAL,
    PERMISSION_REQUEST_WITHDRAWAL,
    PERMISSION_WITHDRAW,
};
use crate::error::{IronVaultError, ProgramFailure};
use crate::instructions::cancel_withdrawal::{cancel_failure, intrinsic_canceller, CancelWithdrawal};
use crate::instructions::create_vault::{create_vault_failure, CreateVault};
use crate::instructions::deposit::{deposit_failure, Deposit};
use crate::instructions::grant_role::{grant_failure, GrantRole};
use crate::instructions::register_asset::{register_failure, RegisterAsset};
use crate::instructions::set_vault_authority::{set_authority_failure, SetVaultAuthority};
use crate::instructions::update_limits::{update_failure, LimitPolicy, UpdateLimits};
use crate::instructions::execute_withdrawal::{execute_failure, spec_execution, ExecuteWithdrawal};
use crate::instructions::pause_vault::{unpause_failure, UnpauseVault};
use crate::instructions::refund_escrow::{refund_failure, spec_refund, RefundEscrow};
use crate::instructions::release_escrow::{release_failure, spec_release, ReleaseEscrow};
use crate::instructions::request_withdrawal::{
    request_execute_after,
    request_expires_at,
    request_failure,
    spec_request_creation,
    RequestWithdrawal,
};
use crate::instructions::revoke_role::{revoke_failure, RevokeRole};
use crate::instructions::withdraw::{spec_withdrawal, withdraw_failure, Withdraw};
use crate::policy::{lemma_window_accounting, lemma_window_rolls_over, window_elapsed};
use crate::pubkey::Pubkey;
use crate::security::permissions::role_permission_granted;
use crate::state::{
    Escrow,
    EscrowStatus,
    RoleAssignment,
    Vault,
    VaultAsset,
    WithdrawalRequest,
    WithdrawalStatus,
};

verus! {

/// Law: an escrow leaves `Funded` at most once. Once released or refunded,
/// neither a release nor a refund is accepted again, whoever calls and
/// whenever.
pub proof fn lemma_escrow_terminal_states_are_final(
    release_ctx: ReleaseEscrow,
    refund_ctx: RefundEscrow,
    escrow: Escrow,
    now: i64,
)
    requires
        escrow.status != EscrowStatus::Funded,
    ensures
        release_failure(release_ctx, escrow, now) is Some,
        refund_failure(refund_ctx, escrow, now) is Some,
{
}

/// Law: release and refund are never both available at the same moment:
/// release needs `now < expires_at`, refund needs `now >= expires_at`.
pub proof fn lemma_release_and_refund_are_exclusive(
    release_ctx: ReleaseEscrow,
    refund_ctx: RefundEscrow,
    escrow: Escrow,
    now: i64,
)
    ensures
        !(release_failure(release_ctx, escrow, now) is None && refund_failure(
            refund_ctx,
            escrow,
            now,
        ) is None),
{
}

/// Law: custodied escrow funds leave only for the immutable recipient (on a
/// release signed by the maker) or the immutable maker (on a refund), and each
/// transition keeps every term of the escrow and moves exactly its amount.
pub proof fn lemma_escrow_outflows_are_fixed(
    release_ctx: ReleaseEscrow,
    refund_ctx: RefundEscrow,
    escrow: Escrow,
    now: i64,
)
    ensures
        release_failure(release_ctx, escrow, now) is None ==> {
            let plan = spec_release(release_ctx, escrow);
            &&& release_ctx.maker == escrow.maker
            &&& release_ctx.recipient_token.owner == escrow.recipient
            &&& release_ctx.recipient_token.mint == escrow.mint
            &&& plan.transfer.destination == release_ctx.recipient_token.key
            &&& plan.transfer.amount == escrow.amount
            &&& plan.escrow.same_terms(escrow)
            &&& plan.escrow.status == EscrowStatus::Released
            &&& now < escrow.expires_at
        },
        refund_failure(refund_ctx, escrow, now) is None ==> {
            let plan = spec_refund(refund_ctx, escrow);
            &&& refund_ctx.maker_destination.owner == escrow.maker
            &&& refund_ctx.maker_destination.mint == escrow.mint
            &&& plan.transfer.destination == refund_ctx.maker_destination.key
            &&& plan.transfer.amount == escrow.amount
            &&& plan.escrow.same_terms(escrow)
            &&& plan.escrow.status == EscrowStatus::Refunded
            &&& escrow.expires_at <= now
        },
{
}

/// Law: no pause can trap an expired escrow. A funded escrow at or after its
/// expiry is refunded to a token account of its maker whoever calls, when the
/// accounts are the escrow's own and custody holds the amount; no pause flag
/// takes part in the decision.
pub proof fn lemma_expired_refund_is_available(ctx: RefundEscrow, escrow: Escrow, now: i64)
    requires
        escrow.status == EscrowStatus::Funded,
        escrow.expires_at <= now,
        escrow.mint == ctx.mint.key,
        escrow.token_program == ctx.token_program,
        ctx.escrow_token.owner == ctx.escrow,
        ctx.escrow_token.mint == escrow.mint,
        ctx.escrow_token.amount >= escrow.amount,
        ctx.maker_destination.owner == escrow.maker,
        ctx.maker_destination.mint == escrow.mint,
    ensures
        refund_failure(ctx, escrow, now) is None,
{
}

/// Law: before expiry no refund is accepted, and a funded escrow whose
/// accounts are right is refused precisely as not yet expired.
pub proof fn lemma_no_refund_before_expiry(ctx: RefundEscrow, escrow: Escrow, now: i64)
    requires
        now < escrow.expires_at,
    ensures
        refund_failure(ctx, escrow, now) is Some,
        escrow.status == EscrowStatus::Funded && escrow.mint == ctx.mint.key
            && escrow.token_program == ctx.token_program && ctx.escrow_token.owner == ctx.escrow
            && ctx.escrow_token.mint == escrow.mint && ctx.maker_destination.owner == escrow.maker
            && ctx.maker_destination.mint == escrow.mint ==> refund_failure(ctx, escrow, now)
            == Some(ProgramFailure::Vault(IronVaultError::EscrowNotExpired)),
{
}

/// Whether the supplied extra accounts prove that `caller` holds `permission`
/// in `vault`: exactly one account, a role that grants it.
pub open spec fn role_proves(
    remaining: Seq<crate::state::AccountInfo>,
    vault: Pubkey,
    caller: Pubkey,
    permission: u64,
) -> bool {
    remaining.len() == 1 && role_permission_granted(
        remaining[0].key,
        remaining[0].owner,
        remaining[0].data@,
        vault,
        caller,
        permission,
    )
}

/// Law: tokens leave a vault, or a request to make them leave is recorded or
/// cancelled, only on behalf of someone entitled to it: the vault authority,
/// or a principal whose active role carries the matching permission (for a
/// cancellation also the guardian or the request's proposer).
pub proof fn lemma_outflows_are_authorized(
    w: Withdraw,
    w_asset: VaultAsset,
    w_amount: u64,
    r: RequestWithdrawal,
    r_vault: Vault,
    r_asset: VaultAsset,
    r_amount: u64,
    c: CancelWithdrawal,
    request: WithdrawalRequest,
    now: i64,
)
    ensures
        withdraw_failure(w, w_asset, w_amount, now) is None ==> w.caller == w.vault.authority
            || role_proves(w.remaining_accounts@, w.vault_key, w.caller, PERMISSION_WITHDRAW),
        request_failure(r, r_vault, r_asset, r_amount, now) is None ==> r.proposer
            == r_vault.authority || role_proves(
            r.remaining_accounts@,
            r.vault_key,
            r.proposer,
            PERMISSION_REQUEST_WITHDRAWAL,
        ),
        cancel_failure(c, request) is None ==> intrinsic_canceller(c, request) || role_proves(
            c.remaining_accounts@,
            c.vault_key,
            c.caller,
            PERMISSION_CANCEL_WITHDRAWAL,
        ),
{
}

/// Law: the timelock threshold splits every amount between the two outflow
/// paths: an amount at or below it can only be withdrawn instantly, one above
/// it can only be requested, so no amount is accepted by both.
pub proof fn lemma_threshold_splits_outflows(
    w: Withdraw,
    r: RequestWithdrawal,
    vault: Vault,
    asset: VaultAsset,
    amount: u64,
    now: i64,
)
    ensures
        withdraw_failure(w, asset, amount, now) is None ==> amount <= asset.timelock_threshold,
        request_failure(r, vault, asset, amount, now) is None ==> amount
            > asset.timelock_threshold,
        !(withdraw_failure(w, asset, amount, now) is None && request_failure(
            r,
            vault,
            asset,
            amount,
            now,
        ) is None),
{
}

/// Law: a request is recorded pending, at the vault's next id, with an
/// execution window that starts after its creation and is not empty; the
/// vault's next request gets a different id.
pub proof fn lemma_requests_are_fresh_and_pending(
    r: RequestWithdrawal,
    vault: Vault,
    asset: VaultAsset,
    amount: u64,
    now: i64,
    next: RequestWithdrawal,
    next_asset: VaultAsset,
    next_amount: u64,
    later: i64,
)
    requires
        request_failure(r, vault, asset, amount, now) is None,
    ensures
        ({
            let created = spec_request_creation(r, vault, asset, amount, now).request;
            let advanced = Vault { next_withdrawal_id: (vault.next_withdrawal_id + 1) as u64, ..vault };
            &&& created.status == WithdrawalStatus::Pending
            &&& created.withdrawal_id == vault.next_withdrawal_id
            &&& created.amount == amount
            &&& created.recipient_token_account == r.recipient_token.key
            &&& now < created.execute_after < created.expires_at
            &&& created.execute_after == request_execute_after(asset, now)
            &&& created.expires_at == request_expires_at(asset, now)
            &&& request_failure(next, advanced, next_asset, next_amount, later) is None
                ==> spec_request_creation(
                next,
                advanced,
                next_asset,
                next_amount,
                later,
            ).request.withdrawal_id != created.withdrawal_id
        }),
{
}

/// Law: executing a request moves exactly its recorded amount of its recorded
/// mint to its recorded recipient, only inside its execution window, keeps
/// every recorded term, and leaves it executed.
pub proof fn lemma_execution_follows_the_request(
    ctx: ExecuteWithdrawal,
    asset: VaultAsset,
    request: WithdrawalRequest,
    now: i64,
)
    requires
        execute_failure(ctx, asset, request, now) is None,
    ensures
        ({
            let plan = spec_execution(ctx, asset, request, now);
            &&& request.status == WithdrawalStatus::Pending
            &&& request.execute_after <= now <= request.expires_at
            &&& plan.transfer.amount == request.amount
            &&& plan.transfer.mint == request.mint
            &&& plan.transfer.destination == request.recipient_token_account
            &&& plan.request.same_intent(request)
            &&& plan.request.status == WithdrawalStatus::Executed
        }),
{
}

/// Law: an executed or cancelled request is final: it can be neither executed
/// nor cancelled again, so a request pays out at most once.
pub proof fn lemma_settled_requests_are_final(
    e: ExecuteWithdrawal,
    c: CancelWithdrawal,
    asset: VaultAsset,
    request: WithdrawalRequest,
    now: i64,
)
    requires
        request.status != WithdrawalStatus::Pending,
    ensures
        execute_failure(e, asset, request, now) is Some,
        cancel_failure(c, request) is Some,
{
}

/// Law: a request's timing is fixed when it is created. Its earliest
/// execution time is the creation time plus the timelock in force then, and
/// whatever policy the asset holds later, an execution before that time is
/// refused: as `WithdrawalTimelockActive`, or for a reason that would refuse
/// it just as well once the time has come. A refused execution yields no
/// transfer, so custody is untouched.
pub proof fn lemma_request_timing_survives_policy_changes(
    r: RequestWithdrawal,
    vault: Vault,
    asset_at_request: VaultAsset,
    amount: u64,
    created_at: i64,
    e: ExecuteWithdrawal,
    asset_now: VaultAsset,
    now: i64,
)
    requires
        request_failure(r, vault, asset_at_request, amount, created_at) is None,
        now < request_execute_after(asset_at_request, created_at),
    ensures
        ({
            let request = spec_request_creation(r, vault, asset_at_request, amount, created_at).request;
            &&& request.execute_after == created_at + asset_at_request.timelock_seconds
            &&& execute_failure(e, asset_now, request, now) is Some
            &&& execute_failure(e, asset_now, request, now) == Some(
                ProgramFailure::Vault(IronVaultError::WithdrawalTimelockActive),
            ) || execute_failure(e, asset_now, request, now) == execute_failure(
                e,
                asset_now,
                request,
                request.execute_after,
            )
        }),
{
}

/// Law: the local pause blocks every outflow (instant withdrawals, new
/// requests and executions) but not the cancellation of a request.
pub proof fn lemma_local_pause_blocks_outflows_only(
    w: Withdraw,
    r: RequestWithdrawal,
    e: ExecuteWithdrawal,
    c: CancelWithdrawal,
    vault: Vault,
    asset: VaultAsset,
    amount: u64,
    request: WithdrawalRequest,
    now: i64,
)
    requires
        w.vault.paused,
        vault.paused,
        e.vault.paused,
    ensures
        withdraw_failure(w, asset, amount, now) is Some,
        request_failure(r, vault, asset, amount, now) is Some,
        execute_failure(e, asset, request, now) is Some,
        cancel_failure(c, request) == cancel_failure(
            CancelWithdrawal { vault: Vault { paused: false, ..c.vault }, ..c },
            request,
        ),
{
}

/// Law: the protocol-wide outflow pause blocks instant withdrawals, new
/// requests and executions; cancellation takes no protocol pause flag.
pub proof fn lemma_protocol_outflow_pause_blocks_outflows(
    w: Withdraw,
    r: RequestWithdrawal,
    e: ExecuteWithdrawal,
    vault: Vault,
    asset: VaultAsset,
    amount: u64,
    request: WithdrawalRequest,
    now: i64,
)
    requires
        w.protocol_config.spec_is_paused(PAUSE_VAULT_OUTFLOW),
        r.protocol_config.spec_is_paused(PAUSE_VAULT_OUTFLOW),
        e.protocol_config.spec_is_paused(PAUSE_VAULT_OUTFLOW),
    ensures
        withdraw_failure(w, asset, amount, now) is Some,
        request_failure(r, vault, asset, amount, now) is Some,
        execute_failure(e, asset, request, now) is Some,
{
}

/// Law: a disabled asset moves no value: deposits, instant withdrawals, new
/// requests and executions are all refused (a pending request can still be
/// cancelled, which involves no asset).
pub proof fn lemma_disabled_asset_moves_nothing(
    d: Deposit,
    w: Withdraw,
    r: RequestWithdrawal,
    e: ExecuteWithdrawal,
    vault: Vault,
    asset: VaultAsset,
    amount: u64,
    request: WithdrawalRequest,
    now: i64,
)
    requires
        !asset.enabled,
    ensures
        deposit_failure(d, asset, amount) is Some,
        withdraw_failure(w, asset, amount, now) is Some,
        request_failure(r, vault, asset, amount, now) is Some,
        execute_failure(e, asset, request, now) is Some,
{
}

/// Law: the protocol's vault-configuration pause blocks vault creation and
/// every vault, asset and role configuration change: authority rotation,
/// asset registration, role grants and revocations, and policy updates.
pub proof fn lemma_config_pause_blocks_configuration(
    create: CreateVault,
    guardian: Pubkey,
    rotate: SetVaultAuthority,
    vault: Vault,
    new_authority: Pubkey,
    register: RegisterAsset,
    grant: GrantRole,
    principal: Pubkey,
    permissions: u64,
    revoke: RevokeRole,
    role: RoleAssignment,
    update: UpdateLimits,
    asset: VaultAsset,
    p: LimitPolicy,
    now: i64,
)
    requires
        create.protocol_config.spec_is_paused(PAUSE_VAULT_CONFIG),
        rotate.protocol_config.spec_is_paused(PAUSE_VAULT_CONFIG),
        register.protocol_config.spec_is_paused(PAUSE_VAULT_CONFIG),
        grant.protocol_config.spec_is_paused(PAUSE_VAULT_CONFIG),
        revoke.protocol_config.spec_is_paused(PAUSE_VAULT_CONFIG),
        update.protocol_config.spec_is_paused(PAUSE_VAULT_CONFIG),
    ensures
        create_vault_failure(create, guardian) is Some,
        set_authority_failure(rotate, vault, new_authority) is Some,
        register_failure(register) is Some,
        grant_failure(grant, principal, permissions) is Some,
        revoke_failure(revoke, role, principal) is Some,
        update_failure(update, asset, p, now) is Some,
{
}

/// Law: every accepted outflow leaves the asset's window spend within its
/// window limit.
pub proof fn lemma_outflows_respect_window_limit(
    w: Withdraw,
    e: ExecuteWithdrawal,
    asset: VaultAsset,
    amount: u64,
    request: WithdrawalRequest,
    now: i64,
)
    ensures
        withdraw_failure(w, asset, amount, now) is None ==> spec_withdrawal(
            w,
            asset,
            amount,
            now,
        ).asset.window_spent <= asset.window_limit,
        execute_failure(e, asset, request, now) is None ==> spec_execution(
            e,
            asset,
            request,
            now,
        ).asset.window_spent <= asset.window_limit,
{
    if withdraw_failure(w, asset, amount, now) is None {
        lemma_window_accounting(asset, amount, now);
    }
    if execute_failure(e, asset, request, now) is None {
        lemma_window_accounting(asset, request.amount, now);
    }
}

/// Law: a revoked role grants nothing: the role data stored after a
/// revocation proves no permission to anyone in any vault.
pub proof fn lemma_revoked_role_grants_nothing(
    ctx: RevokeRole,
    role: RoleAssignment,
    principal: Pubkey,
    key: Pubkey,
    owner: Pubkey,
    vault: Pubkey,
    caller: Pubkey,
    permission: u64,
)
    requires
        revoke_failure(ctx, role, principal) is None,
    ensures
        !role_permission_granted(
            key,
            owner,
            spec_encode_role_assignment(RoleAssignment { permissions: 0, active: false, ..role }),
            vault,
            caller,
            permission,
        ),
{
    lemma_role_assignment_roundtrip(RoleAssignment { permissions: 0, active: false, ..role });
}

/// Law: only the vault authority lifts a local pause; the guardian can pause
/// but not unpause.
pub proof fn lemma_only_authority_unpauses(ctx: UnpauseVault, vault: Vault)
    ensures
        unpause_failure(ctx, vault) is None ==> ctx.authority == vault.authority,
        ctx.authority == vault.guardian && vault.guardian != vault.authority ==> unpause_failure(
            ctx,
            vault,
        ) == Some(ProgramFailure::Vault(IronVaultError::UnauthorizedVaultUnpause)),
{
}

/// Law: an instant withdrawal accepted once the asset's window has run out
/// (the boundary instant counts) restarts the window at `now` with exactly its
/// amount spent, and moves exactly that amount from custody to the
/// destination.
pub proof fn lemma_withdrawal_rolls_the_window_over(
    w: Withdraw,
    asset: VaultAsset,
    amount: u64,
    now: i64,
)
    requires
        window_elapsed(asset, now),
        withdraw_failure(w, asset, amount, now) is None,
    ensures
        ({
            let plan = spec_withdrawal(w, asset, amount, now);
            &&& plan.asset.window_started_at == now
            &&& plan.asset.window_spent == amount
            &&& plan.transfer.amount == amount
            &&& plan.transfer.source_after == w.vault_token.amount - amount
            &&& plan.transfer.destination_after == Some(
                (w.destination_token.amount + amount) as u64,
            )
        }),
{
    lemma_window_rolls_over(asset, amount, now);
}

} // verus!
