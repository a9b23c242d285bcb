//! The program's instructions as verified state transitions. Each one checks
//! the supplied accounts and arguments in the program's order, and on success
//! returns the new account state, the token transfer to perform (if any) and
//! the event to emit; refused instructions change nothing.
use vstd::prelude::*;

use crate::error::{IronVaultError, ProgramFailure};
use crate::pda::{role_address, role_seeds, spec_derived};
use crate::pubkey::Pubkey;
use crate::security::permissions::{role_permission_granted, validate_role_permission};
use crate::security::token_policy::{mint_extensions_supported, spec_mint_extensions_supported};
use crate::state::{AccountInfo, MintAccount};

pub mod cancel_withdrawal;
pub mod create_escrow;
pub mod create_vault;
pub mod deposit;
pub mod execute_withdrawal;
pub mod grant_role;
pub mod initialize_protocol;
pub mod pause_vault;
pub mod refund_escrow;
pub mod register_asset;
pub mod release_escrow;
pub mod request_withdrawal;
pub mod revoke_role;
pub mod set_protocol_pause;
pub mod set_vault_authority;
pub mod update_limits;
pub mod withdraw;

verus! {

/// A refusal with a program error code.
pub open spec fn fail(e: IronVaultError) -> Option<ProgramFailure> {
    Some(ProgramFailure::Vault(e))
}

/// A checked token transfer to perform, and the balances that must hold
/// afterwards.
#[derive(Clone, Copy, Debug)]
pub struct TokenTransfer {
    pub source: Pubkey,
    pub destination: Pubkey,
    pub mint: Pubkey,
    pub authority: Pubkey,
    pub token_program: Pubkey,
    pub amount: u64,
    pub decimals: u8,
    /// Balance the source must hold after the transfer.
    pub source_after: u64,
    /// Balance the destination must hold after the transfer (none when it
    /// would not fit in a `u64`).
    pub destination_after: Option<u64>,
    /// Reported when the source balance is not the expected one.
    pub source_mismatch: IronVaultError,
    /// Reported when the destination balance is not the expected one.
    pub destination_mismatch: IronVaultError,
}

impl TokenTransfer {
    /// The verdict on the balances observed after the transfer.
    pub open spec fn spec_check_balances(self, source_after: u64, destination_after: u64) -> Result<
        (),
        IronVaultError,
    > {
        if source_after != self.source_after {
            Err(self.source_mismatch)
        } else if self.destination_after != Some(destination_after) {
            Err(self.destination_mismatch)
        } else {
            Ok(())
        }
    }

    /// Checks that the transfer moved exactly the amount: the source lost it
    /// and the destination gained it.
    pub fn check_balances(&self, source_after: u64, destination_after: u64) -> (r: Result<
        (),
        IronVaultError,
    >)
        ensures
            r == self.spec_check_balances(source_after, destination_after),
    {
        if source_after != self.source_after {
            return Err(self.source_mismatch);
        }
        match self.destination_after {
            Some(expected) => if expected != destination_after {
                Err(self.destination_mismatch)
            } else {
                Ok(())
            },
            None => Err(self.destination_mismatch),
        }
    }
}

/// The mint must belong to the selected token program and pass the token
/// extension policy; unreadable mint data is refused.
pub open spec fn mint_failure(mint: MintAccount, token_program: Pubkey) -> Option<ProgramFailure> {
    if mint.program != token_program {
        fail(IronVaultError::InvalidTokenProgram)
    } else {
        match spec_mint_extensions_supported(mint.program, mint.data@) {
            Err(_) => Some(ProgramFailure::InvalidAccountData),
            Ok(false) => fail(IronVaultError::UnsupportedTokenExtension),
            Ok(true) => None,
        }
    }
}

/// Checks a mint against the selected token program and the extension policy.
pub fn check_mint(mint: &MintAccount, token_program: &Pubkey) -> (r: Result<(), ProgramFailure>)
    ensures
        r is Ok == mint_failure(*mint, *token_program) is None,
        r matches Err(f) ==> mint_failure(*mint, *token_program) == Some(f),
{
    if !crate::pubkey::keys_equal(&mint.program, token_program) {
        return Err(ProgramFailure::Vault(IronVaultError::InvalidTokenProgram));
    }
    match mint_extensions_supported(&mint.program, mint.data.as_slice()) {
        Err(_) => Err(ProgramFailure::InvalidAccountData),
        Ok(false) => Err(ProgramFailure::Vault(IronVaultError::UnsupportedTokenExtension)),
        Ok(true) => Ok(()),
    }
}

/// Why an operator is not authorized: an intrinsic actor must supply no
/// extra accounts; anyone else must supply exactly one, the role assignment
/// that grants `permission` in the vault.
pub open spec fn operator_failure(
    intrinsic: bool,
    caller: Pubkey,
    vault: Pubkey,
    remaining: Seq<AccountInfo>,
    permission: u64,
    unexpected_accounts: IronVaultError,
    no_role: IronVaultError,
) -> Option<IronVaultError> {
    if intrinsic {
        if remaining.len() != 0 {
            Some(unexpected_accounts)
        } else {
            None
        }
    } else if remaining.len() > 1 {
        Some(unexpected_accounts)
    } else if remaining.len() == 0 {
        Some(no_role)
    } else if !role_permission_granted(
        remaining[0].key,
        remaining[0].owner,
        remaining[0].data@,
        vault,
        caller,
        permission,
    ) {
        Some(IronVaultError::MissingVaultPermission)
    } else {
        None
    }
}

/// Whether authorization needs the role address of a caller whose role
/// address cannot be derived: an operator that supplies one role account,
/// where the runtime's `find_program_address` panics for want of a bump.
pub open spec fn role_unresolvable(
    intrinsic: bool,
    caller: Pubkey,
    vault: Pubkey,
    remaining: Seq<AccountInfo>,
) -> bool {
    &&& !intrinsic
    &&& remaining.len() == 1
    &&& spec_derived(role_seeds(vault, caller)) is None
}

/// Tells whether the role address that authorization would look up can be
/// derived (or is not needed).
pub fn role_resolvable(
    intrinsic: bool,
    caller: &Pubkey,
    vault: &Pubkey,
    remaining: &Vec<AccountInfo>,
) -> (b: bool)
    ensures
        b == !role_unresolvable(intrinsic, *caller, *vault, remaining@),
{
    if intrinsic || remaining.len() != 1 {
        true
    } else {
        role_address(vault, caller).is_some()
    }
}

/// Authorizes an intrinsic actor, or an operator through its role account.
pub fn authorize_operator(
    intrinsic: bool,
    caller: &Pubkey,
    vault: &Pubkey,
    remaining: &Vec<AccountInfo>,
    permission: u64,
    unexpected_accounts: IronVaultError,
    no_role: IronVaultError,
) -> (r: Result<(), IronVaultError>)
    requires
        !role_unresolvable(intrinsic, *caller, *vault, remaining@),
    ensures
        r is Ok == operator_failure(
            intrinsic,
            *caller,
            *vault,
            remaining@,
            permission,
            unexpected_accounts,
            no_role,
        ) is None,
        r matches Err(e) ==> operator_failure(
            intrinsic,
            *caller,
            *vault,
            remaining@,
            permission,
            unexpected_accounts,
            no_role,
        ) == Some(e),
{
    if intrinsic {
        if remaining.len() != 0 {
            return Err(unexpected_accounts);
        }
        return Ok(());
    }
    if remaining.len() > 1 {
        return Err(unexpected_accounts);
    }
    if remaining.len() == 0 {
        return Err(no_role);
    }
    validate_role_permission(&remaining[0], vault, caller, permission)
}

} // verus!
