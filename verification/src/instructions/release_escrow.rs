//! `release_escrow`: the maker releases a funded, unexpired escrow to its
//! immutable recipient.
use vstd::prelude::*;

use crate::constants::{INITIAL_SCHEMA_VERSION, PAUSE_ESCROW_RELEASE};
use crate::error::{IronVaultError, ProgramFailure};
use crate::events::EscrowReleased;
use crate::instructions::{check_mint, fail, mint_failure, TokenTransfer};
use crate::pubkey::{keys_equal, Pubkey};
use crate::state::{Escrow, EscrowStatus, MintAccount, ProtocolConfig, TokenAccount};

verus! {

/// Accounts of `release_escrow`.
#[derive(Clone, Debug)]
pub struct ReleaseEscrow {
    /// The signer claiming to be the maker.
    pub maker: Pubkey,
    pub protocol_config: ProtocolConfig,
    /// Address of the escrow.
    pub escrow: Pubkey,
    pub mint: MintAccount,
    /// The escrow's custody token account.
    pub escrow_token: TokenAccount,
    /// The destination, which must belong to the recipient.
    pub recipient_token: TokenAccount,
    pub token_program: Pubkey,
}

/// The released escrow, the transfer to the recipient, and its event.
#[derive(Clone, Copy, Debug)]
pub struct EscrowRelease {
    pub escrow: Escrow,
    pub transfer: TokenTransfer,
    pub event: EscrowReleased,
}

/// Why `release_escrow` is refused, checks in order: the signer must be the
/// maker, the accounts must match the escrow's mint, program, custody and
/// recipient, then the release pause, the status, the expiry and the custody
/// balance.
pub open spec fn release_failure(ctx: ReleaseEscrow, escrow: Escrow, now: i64) -> Option<
    ProgramFailure,
> {
    if escrow.maker != ctx.maker || escrow.mint != ctx.mint.key {
        Some(ProgramFailure::ConstraintHasOne)
    } else if escrow.token_program != ctx.token_program {
        Some(ProgramFailure::ConstraintRaw)
    } else if mint_failure(ctx.mint, ctx.token_program) is Some {
        mint_failure(ctx.mint, ctx.token_program)
    } else if ctx.escrow_token.owner != ctx.escrow {
        fail(IronVaultError::InvalidCustodyBalance)
    } else if ctx.escrow_token.mint != escrow.mint {
        fail(IronVaultError::InvalidSourceMint)
    } else if ctx.escrow_token.program != ctx.token_program {
        fail(IronVaultError::InvalidTokenProgram)
    } else if ctx.recipient_token.owner != escrow.recipient {
        fail(IronVaultError::InvalidRecipientOwner)
    } else if ctx.recipient_token.mint != escrow.mint {
        fail(IronVaultError::InvalidRecipientMint)
    } else if ctx.recipient_token.program != ctx.token_program {
        fail(IronVaultError::InvalidTokenProgram)
    } else if ctx.protocol_config.spec_is_paused(PAUSE_ESCROW_RELEASE) {
        fail(IronVaultError::ProtocolPaused)
    } else if escrow.status != EscrowStatus::Funded {
        fail(IronVaultError::EscrowNotFunded)
    } else if escrow.expires_at <= now {
        fail(IronVaultError::EscrowExpired)
    } else if ctx.escrow_token.amount < escrow.amount {
        fail(IronVaultError::InsufficientFunds)
    } else {
        None
    }
}

/// `a + b` when it fits in a `u64`.
pub open spec fn checked_sum(a: u64, b: u64) -> Option<u64> {
    if a + b <= u64::MAX {
        Some((a + b) as u64)
    } else {
        None
    }
}

/// The released escrow, transfer and event of a successful release.
pub open spec fn spec_release(ctx: ReleaseEscrow, escrow: Escrow) -> EscrowRelease {
    EscrowRelease {
        escrow: Escrow { status: EscrowStatus::Released, ..escrow },
        transfer: TokenTransfer {
            source: ctx.escrow_token.key,
            destination: ctx.recipient_token.key,
            mint: ctx.mint.key,
            authority: ctx.escrow,
            token_program: ctx.token_program,
            amount: escrow.amount,
            decimals: ctx.mint.decimals,
            source_after: (ctx.escrow_token.amount - escrow.amount) as u64,
            destination_after: checked_sum(ctx.recipient_token.amount, escrow.amount),
            source_mismatch: IronVaultError::InvalidCustodyBalance,
            destination_mismatch: IronVaultError::InvalidRecipientBalance,
        },
        event: EscrowReleased {
            version: INITIAL_SCHEMA_VERSION,
            escrow: ctx.escrow,
            escrow_token: ctx.escrow_token.key,
            maker: escrow.maker,
            recipient: escrow.recipient,
            recipient_token: ctx.recipient_token.key,
            mint: escrow.mint,
            amount: escrow.amount,
        },
    }
}

/// `a + b`, or none when it overflows.
pub fn checked_add_u64(a: u64, b: u64) -> (r: Option<u64>)
    ensures
        r == checked_sum(a, b),
{
    a.checked_add(b)
}

/// Releases the escrowed amount to a token account of the fixed recipient and
/// marks the escrow released; only the maker, only while funded and strictly
/// before expiry.
pub fn release(ctx: &ReleaseEscrow, escrow: &Escrow, now: i64) -> (r: Result<
    EscrowRelease,
    ProgramFailure,
>)
    ensures
        r matches Err(f) ==> release_failure(*ctx, *escrow, now) == Some(f),
        r matches Ok(plan) ==> release_failure(*ctx, *escrow, now) is None && plan == spec_release(
            *ctx,
            *escrow,
        ),
{
    if !keys_equal(&escrow.maker, &ctx.maker) || !keys_equal(&escrow.mint, &ctx.mint.key) {
        return Err(ProgramFailure::ConstraintHasOne);
    }
    if !keys_equal(&escrow.token_program, &ctx.token_program) {
        return Err(ProgramFailure::ConstraintRaw);
    }
    check_mint(&ctx.mint, &ctx.token_program)?;
    if !keys_equal(&ctx.escrow_token.owner, &ctx.escrow) {
        return Err(ProgramFailure::Vault(IronVaultError::InvalidCustodyBalance));
    }
    if !keys_equal(&ctx.escrow_token.mint, &escrow.mint) {
        return Err(ProgramFailure::Vault(IronVaultError::InvalidSourceMint));
    }
    if !keys_equal(&ctx.escrow_token.program, &ctx.token_program) {
        return Err(ProgramFailure::Vault(IronVaultError::InvalidTokenProgram));
    }
    if !keys_equal(&ctx.recipient_token.owner, &escrow.recipient) {
        return Err(ProgramFailure::Vault(IronVaultError::InvalidRecipientOwner));
    }
    if !keys_equal(&ctx.recipient_token.mint, &escrow.mint) {
        return Err(ProgramFailure::Vault(IronVaultError::InvalidRecipientMint));
    }
    if !keys_equal(&ctx.recipient_token.program, &ctx.token_program) {
        return Err(ProgramFailure::Vault(IronVaultError::InvalidTokenProgram));
    }
    if ctx.protocol_config.is_paused(PAUSE_ESCROW_RELEASE) {
        return Err(ProgramFailure::Vault(IronVaultError::ProtocolPaused));
    }
    if escrow.status != EscrowStatus::Funded {
        return Err(ProgramFailure::Vault(IronVaultError::EscrowNotFunded));
    }
    if escrow.expires_at <= now {
        return Err(ProgramFailure::Vault(IronVaultError::EscrowExpired));
    }
    if ctx.escrow_token.amount < escrow.amount {
        return Err(ProgramFailure::Vault(IronVaultError::InsufficientFunds));
    }
    let mut released = *escrow;
    released.status = EscrowStatus::Released;
    Ok(
        EscrowRelease {
            escrow: released,
            transfer: TokenTransfer {
                source: ctx.escrow_token.key,
                destination: ctx.recipient_token.key,
                mint: ctx.mint.key,
                authority: ctx.escrow,
                token_program: ctx.token_program,
                amount: escrow.amount,
                decimals: ctx.mint.decimals,
                source_after: ctx.escrow_token.amount - escrow.amount,
                destination_after: checked_add_u64(ctx.recipient_token.amount, escrow.amount),
                source_mismatch: IronVaultError::InvalidCustodyBalance,
                destination_mismatch: IronVaultError::InvalidRecipientBalance,
            },
            event: EscrowReleased {
                version: INITIAL_SCHEMA_VERSION,
                escrow: ctx.escrow,
                escrow_token: ctx.escrow_token.key,
                maker: escrow.maker,
                recipient: escrow.recipient,
                recipient_token: ctx.recipient_token.key,
                mint: escrow.mint,
                amount: escrow.amount,
            },
        },
    )
}

} // verus!
