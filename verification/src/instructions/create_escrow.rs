//! `create_escrow`: creates and atomically funds a fixed-destination escrow.
use vstd::prelude::*;

use crate::constants::{INITIAL_SCHEMA_VERSION, PAUSE_ESCROW_CREATE};
use crate::error::{IronVaultError, ProgramFailure};
use crate::events::EscrowCreated;
use crate::instructions::{check_mint, fail, mint_failure, TokenTransfer};
use crate::pubkey::{keys_equal, Pubkey};
use crate::state::{Escrow, EscrowStatus, MintAccount, ProtocolConfig, TokenAccount};

verus! {

/// Accounts of `create_escrow`.
#[derive(Clone, Debug)]
pub struct CreateEscrow {
    /// The signing maker, who funds the escrow.
    pub maker: Pubkey,
    pub protocol_config: ProtocolConfig,
    pub mint: MintAccount,
    /// The maker's source token account.
    pub maker_token: TokenAccount,
    /// Address of the escrow being created.
    pub escrow: Pubkey,
    /// Bump of the escrow address.
    pub escrow_bump: u8,
    /// The escrow's newly created custody token account.
    pub escrow_token: TokenAccount,
    pub token_program: Pubkey,
}

/// A funded escrow, the transfer that funds it, and its event.
#[derive(Clone, Copy, Debug)]
pub struct EscrowCreation {
    pub escrow: Escrow,
    pub transfer: TokenTransfer,
    pub event: EscrowCreated,
}

/// Why `create_escrow` is refused, checks in order: mint and source account
/// constraints, the creation pause, then the terms and balances.
pub open spec fn create_failure(
    ctx: CreateEscrow,
    now: i64,
    recipient: Pubkey,
    amount: u64,
    expires_at: i64,
) -> Option<ProgramFailure> {
    if mint_failure(ctx.mint, ctx.token_program) is Some {
        mint_failure(ctx.mint, ctx.token_program)
    } else if ctx.maker_token.owner != ctx.maker {
        fail(IronVaultError::InvalidSourceOwner)
    } else if ctx.maker_token.mint != ctx.mint.key {
        fail(IronVaultError::InvalidSourceMint)
    } else if ctx.maker_token.program != ctx.token_program {
        fail(IronVaultError::InvalidTokenProgram)
    } else if ctx.protocol_config.spec_is_paused(PAUSE_ESCROW_CREATE) {
        fail(IronVaultError::ProtocolPaused)
    } else if amount == 0 {
        fail(IronVaultError::InvalidAmount)
    } else if recipient.spec_is_default() || recipient == ctx.maker {
        fail(IronVaultError::InvalidRecipient)
    } else if expires_at <= now {
        fail(IronVaultError::InvalidExpiry)
    } else if ctx.maker_token.amount < amount {
        fail(IronVaultError::InsufficientFunds)
    } else if ctx.escrow_token.amount != 0 {
        fail(IronVaultError::InvalidCustodyBalance)
    } else {
        None
    }
}

/// The escrow, funding transfer and event of a successful creation.
pub open spec fn spec_creation(
    ctx: CreateEscrow,
    now: i64,
    escrow_id: u64,
    recipient: Pubkey,
    amount: u64,
    expires_at: i64,
) -> EscrowCreation {
    EscrowCreation {
        escrow: Escrow {
            maker: ctx.maker,
            recipient,
            mint: ctx.mint.key,
            token_program: ctx.token_program,
            escrow_id,
            amount,
            created_at: now,
            expires_at,
            status: EscrowStatus::Funded,
            bump: ctx.escrow_bump,
        },
        transfer: TokenTransfer {
            source: ctx.maker_token.key,
            destination: ctx.escrow_token.key,
            mint: ctx.mint.key,
            authority: ctx.maker,
            token_program: ctx.token_program,
            amount,
            decimals: ctx.mint.decimals,
            source_after: (ctx.maker_token.amount - amount) as u64,
            destination_after: Some(amount),
            source_mismatch: IronVaultError::InvalidSourceBalance,
            destination_mismatch: IronVaultError::InvalidCustodyBalance,
        },
        event: EscrowCreated {
            version: INITIAL_SCHEMA_VERSION,
            escrow: ctx.escrow,
            escrow_token: ctx.escrow_token.key,
            maker: ctx.maker,
            recipient,
            mint: ctx.mint.key,
            amount,
            created_at: now,
            expires_at,
            escrow_id,
        },
    }
}

/// Creates a funded escrow with immutable terms: exactly `amount` moves from
/// the maker's account into the empty custody account; the recipient must be
/// set and differ from the maker, and the expiry must lie after `now`.
pub fn create(
    ctx: &CreateEscrow,
    now: i64,
    escrow_id: u64,
    recipient: Pubkey,
    amount: u64,
    expires_at: i64,
) -> (r: Result<EscrowCreation, ProgramFailure>)
    ensures
        r matches Err(f) ==> create_failure(*ctx, now, recipient, amount, expires_at) == Some(f),
        r matches Ok(c) ==> create_failure(*ctx, now, recipient, amount, expires_at) is None && c
            == spec_creation(*ctx, now, escrow_id, recipient, amount, expires_at),
{
    check_mint(&ctx.mint, &ctx.token_program)?;
    if !keys_equal(&ctx.maker_token.owner, &ctx.maker) {
        return Err(ProgramFailure::Vault(IronVaultError::InvalidSourceOwner));
    }
    if !keys_equal(&ctx.maker_token.mint, &ctx.mint.key) {
        return Err(ProgramFailure::Vault(IronVaultError::InvalidSourceMint));
    }
    if !keys_equal(&ctx.maker_token.program, &ctx.token_program) {
        return Err(ProgramFailure::Vault(IronVaultError::InvalidTokenProgram));
    }
    if ctx.protocol_config.is_paused(PAUSE_ESCROW_CREATE) {
        return Err(ProgramFailure::Vault(IronVaultError::ProtocolPaused));
    }
    if amount == 0 {
        return Err(ProgramFailure::Vault(IronVaultError::InvalidAmount));
    }
    if recipient.is_default() || keys_equal(&recipient, &ctx.maker) {
        return Err(ProgramFailure::Vault(IronVaultError::InvalidRecipient));
    }
    if expires_at <= now {
        return Err(ProgramFailure::Vault(IronVaultError::InvalidExpiry));
    }
    if ctx.maker_token.amount < amount {
        return Err(ProgramFailure::Vault(IronVaultError::InsufficientFunds));
    }
    if ctx.escrow_token.amount != 0 {
        return Err(ProgramFailure::Vault(IronVaultError::InvalidCustodyBalance));
    }
    Ok(
        EscrowCreation {
            escrow: Escrow {
                maker: ctx.maker,
                recipient,
                mint: ctx.mint.key,
                token_program: ctx.token_program,
                escrow_id,
                amount,
                created_at: now,
                expires_at,
                status: EscrowStatus::Funded,
                bump: ctx.escrow_bump,
            },
            transfer: TokenTransfer {
                source: ctx.maker_token.key,
                destination: ctx.escrow_token.key,
                mint: ctx.mint.key,
                authority: ctx.maker,
                token_program: ctx.token_program,
                amount,
                decimals: ctx.mint.decimals,
                source_after: ctx.maker_token.amount - amount,
                destination_after: Some(amount),
                source_mismatch: IronVaultError::InvalidSourceBalance,
                destination_mismatch: IronVaultError::InvalidCustodyBalance,
            },
            event: EscrowCreated {
                version: INITIAL_SCHEMA_VERSION,
                escrow: ctx.escrow,
                escrow_token: ctx.escrow_token.key,
                maker: ctx.maker,
                recipient,
                mint: ctx.mint.key,
                amount,
                created_at: now,
                expires_at,
                escrow_id,
            },
        },
    )
}

} // verus!
