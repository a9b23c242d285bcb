//! Account data layout: an 8-byte discriminator followed by the fields in
//! declaration order (keys as 32 bytes, integers little-endian, flags as one
//! byte) and zeroed reserved bytes.
use vstd::prelude::*;

use crate::codec::{bool_byte, key_at, key_bytes, le_u64, u64_at};
use crate::hashing::{namespaced_discriminator, spec_discriminator};
use crate::state::RoleAssignment;

verus! {

/// `n` zero bytes.
pub open spec fn zeros(n: nat) -> Seq<u8> {
    Seq::new(n, |i: int| 0u8)
}

/// Discriminator of role assignment accounts.
pub open spec fn role_assignment_discriminator() -> Seq<u8> {
    spec_discriminator("account"@, "RoleAssignment"@)
}

/// Bytes stored in a role assignment account.
pub open spec fn spec_encode_role_assignment(role: RoleAssignment) -> Seq<u8> {
    role_assignment_discriminator() + key_bytes(role.vault) + key_bytes(role.principal) + le_u64(
        role.permissions,
    ) + bool_byte(role.active) + seq![role.bump] + zeros(54)
}

/// The role assignment that account data holds: it needs the role
/// discriminator, all 136 bytes, and a flag byte of 0 or 1; trailing bytes
/// are ignored.
pub open spec fn spec_decode_role_assignment(data: Seq<u8>) -> Option<RoleAssignment> {
    if data.len() < 136 || data.subrange(0, 8) != role_assignment_discriminator() || data[80] > 1 {
        None
    } else {
        Some(
            RoleAssignment {
                vault: key_at(data, 8),
                principal: key_at(data, 40),
                permissions: u64_at(data, 72),
                active: data[80] == 1,
                bump: data[81],
            },
        )
    }
}

impl RoleAssignment {
    /// Reads a role assignment from account data.
    pub fn try_deserialize(data: &[u8]) -> (role: Option<RoleAssignment>)
        ensures
            role == spec_decode_role_assignment(data@),
    {
        if data.len() < 136 {
            return None;
        }
        let disc = namespaced_discriminator("account", "RoleAssignment");
        assert(disc@ == role_assignment_discriminator());
        let mut i: usize = 0;
        while i < 8
            invariant
                i <= 8,
                data@.len() >= 136,
                disc@ == role_assignment_discriminator(),
                forall|j: int| 0 <= j < i ==> data@[j] == disc@[j],
            decreases 8 - i,
        {
            if data[i] != disc[i] {
                assert(data@.subrange(0, 8)[i as int] != role_assignment_discriminator()[i as int]);
                return None;
            }
            i = i + 1;
        }
        assert(data@.subrange(0, 8) =~= role_assignment_discriminator());
        if data[80] > 1 {
            return None;
        }
        Some(
            RoleAssignment {
                vault: crate::codec::read_key(data, 8),
                principal: crate::codec::read_key(data, 40),
                permissions: crate::codec::read_u64(data, 72),
                active: data[80] == 1,
                bump: data[81],
            },
        )
    }

    /// Writes the account data of this role assignment.
    pub fn try_serialize(&self) -> (data: Vec<u8>)
        ensures
            data@ == spec_encode_role_assignment(*self),
            data@.len() == RoleAssignment::SPACE,
    {
        let disc = namespaced_discriminator("account", "RoleAssignment");
        let mut data: Vec<u8> = Vec::new();
        crate::codec::push_bytes(&mut data, disc.as_slice());
        crate::codec::push_key(&mut data, &self.vault);
        crate::codec::push_key(&mut data, &self.principal);
        crate::codec::push_u64(&mut data, self.permissions);
        crate::codec::push_bool(&mut data, self.active);
        data.push(self.bump);
        crate::codec::push_zeros(&mut data, 54);
        assert(data@ =~= spec_encode_role_assignment(*self));
        data
    }
}

/// Law: reading back the data written for a role assignment gives the role.
pub proof fn lemma_role_assignment_roundtrip(role: RoleAssignment)
    ensures
        spec_decode_role_assignment(spec_encode_role_assignment(role)) == Some(role),
{
    let data = spec_encode_role_assignment(role);
    assert(data.len() == 136);
    assert(data.subrange(0, 8) =~= role_assignment_discriminator());
    assert(data.subrange(8, 40) =~= key_bytes(role.vault));
    assert(data.subrange(40, 72) =~= key_bytes(role.principal));
    assert(data.subrange(72, 80) =~= le_u64(role.permissions));
    assert(data[80] == bool_byte(role.active)[0]);
    crate::codec::lemma_key_roundtrip(role.vault, data, 8);
    crate::codec::lemma_key_roundtrip(role.principal, data, 40);
    crate::codec::lemma_u64_roundtrip(role.permissions, data, 72);
}

} // verus!
