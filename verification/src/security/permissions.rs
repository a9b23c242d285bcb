//! Delegated vault permissions held in role assignment accounts.
use vstd::prelude::*;

use crate::accounts::spec_decode_role_assignment;
use crate::error::IronVaultError;
use crate::pda::{role_address, role_seeds, spec_derived};
use crate::pubkey::{keys_equal, program_id, spec_program_id, Pubkey};
use crate::state::{AccountInfo, RoleAssignment};

verus! {

/// The supplied account is the canonical role assignment of `caller` in
/// `vault`, is owned by this program, holds role data for that vault and
/// principal, and the role is active and carries every bit of `permission`.
pub open spec fn role_permission_granted(
    role_key: Pubkey,
    role_owner: Pubkey,
    role_data: Seq<u8>,
    vault: Pubkey,
    caller: Pubkey,
    permission: u64,
) -> bool {
    &&& spec_derived(role_seeds(vault, caller)) matches Some((address, _))
    &&& role_key.0@ == address
    &&& role_owner == spec_program_id()
    &&& spec_decode_role_assignment(role_data) matches Some(role)
    &&& role.vault == vault
    &&& role.principal == caller
    &&& role.spec_has(permission)
}

/// Checks that `role_info` grants `caller` the `permission` in `vault`; every
/// failure is reported as a missing permission. The role address of `caller`
/// in `vault` must be derivable: the runtime's `find_program_address` panics
/// where no bump yields one.
pub fn validate_role_permission(
    role_info: &AccountInfo,
    vault: &Pubkey,
    caller: &Pubkey,
    permission: u64,
) -> (r: Result<(), IronVaultError>)
    requires
        spec_derived(role_seeds(*vault, *caller)) is Some,
    ensures
        r is Ok == role_permission_granted(
            role_info.key,
            role_info.owner,
            role_info.data@,
            *vault,
            *caller,
            permission,
        ),
        r is Err ==> r == Err::<(), IronVaultError>(IronVaultError::MissingVaultPermission),
{
    let (expected, _) = role_address(vault, caller).unwrap();
    if !keys_equal(&role_info.key, &expected) {
        proof {
            crate::pubkey::lemma_pubkey_eq(role_info.key, expected);
        }
        return Err(IronVaultError::MissingVaultPermission);
    }
    let id = program_id();
    if !keys_equal(&role_info.owner, &id) {
        return Err(IronVaultError::MissingVaultPermission);
    }
    let role = match RoleAssignment::try_deserialize(role_info.data.as_slice()) {
        Some(role) => role,
        None => {
            return Err(IronVaultError::MissingVaultPermission);
        },
    };
    if !keys_equal(&role.vault, vault) || !keys_equal(&role.principal, caller) || !role.has(
        permission,
    ) {
        return Err(IronVaultError::MissingVaultPermission);
    }
    proof {
        crate::pubkey::lemma_pubkey_eq(role_info.key, expected);
    }
    Ok(())
}

} // verus!
