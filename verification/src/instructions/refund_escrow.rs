//! `refund_escrow`: anyone returns a funded escrow to its maker at or after
//! expiry.
use vstd::prelude::*;

use crate::constants::INITIAL_SCHEMA_VERSION;
use crate::error::{IronVaultError, ProgramFailure};
use crate::events::EscrowRefunded;
use crate::instructions::release_escrow::{checked_add_u64, checked_sum};
use crate::instructions::{fail, TokenTransfer};
use crate::pubkey::{keys_equal, Pubkey};
use crate::state::{Escrow, EscrowStatus, MintAccount, TokenAccount};

verus! {

/// Accounts of `refund_escrow`. No pause flag applies to refunds.
#[derive(Clone, Debug)]
pub struct RefundEscrow {
    /// Any signer; the caller cannot choose the beneficiary.
    pub caller: Pubkey,
    /// Address of the escrow.
    pub escrow: Pubkey,
    pub mint: MintAccount,
    /// The escrow's custody token account.
    pub escrow_token: TokenAccount,
    /// The destination, which must belong to the maker.
    pub maker_destination: TokenAccount,
    pub token_program: Pubkey,
}

/// The refunded escrow, the transfer back to the maker, and its event.
#[derive(Clone, Copy, Debug)]
pub struct EscrowRefund {
    pub escrow: Escrow,
    pub transfer: TokenTransfer,
    pub event: EscrowRefunded,
}

/// Why `refund_escrow` is refused, checks in order: the accounts must match
/// the escrow's mint, program, custody and maker, then the status, the expiry
/// and the custody balance.
pub open spec fn refund_failure(ctx: RefundEscrow, escrow: Escrow, now: i64) -> Option<
    ProgramFailure,
> {
    if escrow.mint != ctx.mint.key {
        Some(ProgramFailure::ConstraintHasOne)
    } else if escrow.token_program != ctx.token_program {
        Some(ProgramFailure::ConstraintRaw)
    } else if ctx.escrow_token.owner != ctx.escrow {
        fail(IronVaultError::InvalidCustodyBalance)
    } else if ctx.escrow_token.mint != escrow.mint {
        fail(IronVaultError::InvalidSourceMint)
    } else if ctx.maker_destination.owner != escrow.maker {
        fail(IronVaultError::InvalidMakerDestinationOwner)
    } else if ctx.maker_destination.mint != escrow.mint {
        fail(IronVaultError::InvalidMakerDestinationMint)
    } else if escrow.status != EscrowStatus::Funded {
        fail(IronVaultError::EscrowNotFunded)
    } else if now < escrow.expires_at {
        fail(IronVaultError::EscrowNotExpired)
    } else if ctx.escrow_token.amount < escrow.amount {
        fail(IronVaultError::InsufficientFunds)
    } else {
        None
    }
}

/// The refunded escrow, transfer and event of a successful refund.
pub open spec fn spec_refund(ctx: RefundEscrow, escrow: Escrow) -> EscrowRefund {
    EscrowRefund {
        escrow: Escrow { status: EscrowStatus::Refunded, ..escrow },
        transfer: TokenTransfer {
            source: ctx.escrow_token.key,
            destination: ctx.maker_destination.key,
            mint: ctx.mint.key,
            authority: ctx.escrow,
            token_program: ctx.token_program,
            amount: escrow.amount,
            decimals: ctx.mint.decimals,
            source_after: (ctx.escrow_token.amount - escrow.amount) as u64,
            destination_after: checked_sum(ctx.maker_destination.amount, escrow.amount),
            source_mismatch: IronVaultError::InvalidCustodyBalance,
            destination_mismatch: IronVaultError::InvalidMakerDestinationBalance,
        },
        event: EscrowRefunded {
            version: INITIAL_SCHEMA_VERSION,
            escrow: ctx.escrow,
            escrow_token: ctx.escrow_token.key,
            caller: ctx.caller,
            maker: escrow.maker,
            maker_destination: ctx.maker_destination.key,
            mint: escrow.mint,
            amount: escrow.amount,
        },
    }
}

/// Returns the escrowed amount to a token account of the fixed maker and marks
/// the escrow refunded; anyone may call it once the escrow has expired.
pub fn refund(ctx: &RefundEscrow, escrow: &Escrow, now: i64) -> (r: Result<
    EscrowRefund,
    ProgramFailure,
>)
    ensures
        r matches Err(f) ==> refund_failure(*ctx, *escrow, now) == Some(f),
        r matches Ok(plan) ==> refund_failure(*ctx, *escrow, now) is None && plan == spec_refund(
            *ctx,
            *escrow,
        ),
{
    if !keys_equal(&escrow.mint, &ctx.mint.key) {
        return Err(ProgramFailure::ConstraintHasOne);
    }
    if !keys_equal(&escrow.token_program, &ctx.token_program) {
        return Err(ProgramFailure::ConstraintRaw);
    }
    if !keys_equal(&ctx.escrow_token.owner, &ctx.escrow) {
        return Err(ProgramFailure::Vault(IronVaultError::InvalidCustodyBalance));
    }
    if !keys_equal(&ctx.escrow_token.mint, &escrow.mint) {
        return Err(ProgramFailure::Vault(IronVaultError::InvalidSourceMint));
    }
    if !keys_equal(&ctx.maker_destination.owner, &escrow.maker) {
        return Err(ProgramFailure::Vault(IronVaultError::InvalidMakerDestinationOwner));
    }
    if !keys_equal(&ctx.maker_destination.mint, &escrow.mint) {
        return Err(ProgramFailure::Vault(IronVaultError::InvalidMakerDestinationMint));
    }
    if escrow.status != EscrowStatus::Funded {
        return Err(ProgramFailure::Vault(IronVaultError::EscrowNotFunded));
    }
    if now < escrow.expires_at {
        return Err(ProgramFailure::Vault(IronVaultError::EscrowNotExpired));
    }
    if ctx.escrow_token.amount < escrow.amount {
        return Err(ProgramFailure::Vault(IronVaultError::InsufficientFunds));
    }
    let mut refunded = *escrow;
    refunded.status = EscrowStatus::Refunded;
    Ok(
        EscrowRefund {
            escrow: refunded,
            transfer: TokenTransfer {
                source: ctx.escrow_token.key,
                destination: ctx.maker_destination.key,
                mint: ctx.mint.key,
                authority: ctx.escrow,
                token_program: ctx.token_program,
                amount: escrow.amount,
                decimals: ctx.mint.decimals,
                source_after: ctx.escrow_token.amount - escrow.amount,
                destination_after: checked_add_u64(ctx.maker_destination.amount, escrow.amount),
                source_mismatch: IronVaultError::InvalidCustodyBalance,
                destination_mismatch: IronVaultError::InvalidMakerDestinationBalance,
            },
            event: EscrowRefunded {
                version: INITIAL_SCHEMA_VERSION,
                escrow: ctx.escrow,
                escrow_token: ctx.escrow_token.key,
                caller: ctx.caller,
                maker: escrow.maker,
                maker_destination: ctx.maker_destination.key,
                mint: escrow.mint,
                amount: escrow.amount,
            },
        },
    )
}

} // verus!
