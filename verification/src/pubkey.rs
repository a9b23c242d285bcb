//! Account addresses and the well-known program identities.
use vstd::prelude::*;

verus! {

/// A 32-byte Solana account address.
#[derive(Clone, Copy, Debug)]
pub struct Pubkey(pub [u8; 32]);

/// The 32 bytes of the all-zero ("default", unset) key.
pub open spec fn zero_bytes() -> Seq<u8> {
    Seq::new(32, |i: int| 0u8)
}

/// Text of a byte string in the Base58 alphabet used for Solana addresses,
/// as `bs58::encode(..).into_string()` produces it.
pub uninterp spec fn base58_text(bytes: Seq<u8>) -> Seq<char>;

/// Calls `bs58::encode(bytes).into_string()`; the contract only names the
/// resulting text, which depends on the bytes alone.
#[verifier::external_body]
fn bs58_encode_32(bytes: &[u8; 32]) -> (text: String)
    ensures
        text@ == base58_text(bytes@),
{
    bs58::encode(bytes).into_string()
}

impl Pubkey {
    /// The address bytes.
    pub open spec fn bytes(self) -> Seq<u8> {
        self.0@
    }

    /// Whether this is the all-zero default key.
    pub open spec fn spec_is_default(self) -> bool {
        self.0@ == zero_bytes()
    }

    /// Builds a key from its 32 bytes.
    pub fn new_from_array(bytes: [u8; 32]) -> (key: Pubkey)
        ensures
            key.0 == bytes,
    {
        Pubkey(bytes)
    }

    /// The 32 address bytes.
    pub fn to_bytes(&self) -> (bytes: [u8; 32])
        ensures
            bytes == self.0,
    {
        self.0
    }

    /// Whether this is the all-zero default key.
    pub fn is_default(&self) -> (r: bool)
        ensures
            r == self.spec_is_default(),
    {
        let mut i: usize = 0;
        while i < 32
            invariant
                i <= 32,
                forall|j: int| 0 <= j < i ==> self.0@[j] == 0u8,
            decreases 32 - i,
        {
            if self.0[i] != 0 {
                assert(self.0@[i as int] != zero_bytes()[i as int]);
                return false;
            }
            i = i + 1;
        }
        assert(self.0@ =~= zero_bytes());
        true
    }

    /// The Base58 text of the key, as Solana tools display addresses.
    pub fn to_base58(&self) -> (text: String)
        ensures
            text@ == base58_text(self.0@),
    {
        bs58_encode_32(&self.0)
    }
}

impl PartialEq for Pubkey {
    fn eq(&self, other: &Self) -> (r: bool) {
        let mut i: usize = 0;
        while i < 32
            invariant
                i <= 32,
                forall|j: int| 0 <= j < i ==> self.0@[j] == other.0@[j],
            decreases 32 - i,
        {
            if self.0[i] != other.0[i] {
                return false;
            }
            i = i + 1;
        }
        assert(self.0@ =~= other.0@);
        true
    }
}

impl vstd::std_specs::cmp::PartialEqSpecImpl for Pubkey {
    open spec fn obeys_eq_spec() -> bool {
        true
    }

    open spec fn eq_spec(&self, other: &Pubkey) -> bool {
        self.0@ == other.0@
    }
}

impl Eq for Pubkey {}

impl Default for Pubkey {
    fn default() -> (key: Pubkey)
        ensures
            key.spec_is_default(),
    {
        let bytes: [u8; 32] = [
            0u8, 0, 0, 0, 0, 0, 0, 0, 0, 0, 0, 0, 0, 0, 0, 0, 0, 0, 0, 0, 0, 0, 0, 0, 0, 0, 0, 0, 0,
            0, 0, 0,
        ];
        assert(bytes@ =~= zero_bytes());
        Pubkey(bytes)
    }
}

/// Two keys are equal exactly when their bytes are equal.
pub proof fn lemma_pubkey_eq(a: Pubkey, b: Pubkey)
    ensures
        (a.0@ == b.0@) == (a == b),
{
    broadcast use vstd::array::group_array_axioms;

    if a.0@ == b.0@ {
        assert(a.0 == b.0);
    }
}

/// Compares two keys; the result is spec equality of the keys.
pub fn keys_equal(a: &Pubkey, b: &Pubkey) -> (r: bool)
    ensures
        r == (*a == *b),
{
    proof {
        lemma_pubkey_eq(*a, *b);
    }
    *a == *b
}

/// Bytes of this program's address, `2UWmTuefm4gqbfuZP36NSJMMSKLM4Rbop25jf1uBZAu1`.
pub open spec fn spec_program_id() -> Pubkey {
    Pubkey(
        [
            21u8, 232, 6, 167, 160, 42, 211, 142, 210, 252, 85, 241, 247, 36, 208, 159, 234, 159,
            46, 2, 85, 177, 62, 102, 139, 169, 100, 116, 60, 178, 171, 44,
        ],
    )
}

/// This program's address, `2UWmTuefm4gqbfuZP36NSJMMSKLM4Rbop25jf1uBZAu1`.
pub fn program_id() -> (id: Pubkey)
    ensures
        id == spec_program_id(),
{
    Pubkey(
        [
            21u8, 232, 6, 167, 160, 42, 211, 142, 210, 252, 85, 241, 247, 36, 208, 159, 234, 159,
            46, 2, 85, 177, 62, 102, 139, 169, 100, 116, 60, 178, 171, 44,
        ],
    )
}

/// Bytes of the legacy SPL Token program address,
/// `TokenkegQfeZyiNwAJbNbGKPFXCWuBvf9Ss623VQ5DA`.
pub open spec fn spec_token_program_bytes() -> Seq<u8> {
    seq![
        6u8, 221, 246, 225, 215, 101, 161, 147, 217, 203, 225, 70, 206, 235, 121, 172, 28, 180,
        133, 237, 95, 91, 55, 145, 58, 140, 245, 133, 126, 255, 0, 169,
    ]
}

/// Reads `anchor_spl::token::ID`, the legacy SPL Token program address
/// (declared in its crate as `TokenkegQfeZyiNwAJbNbGKPFXCWuBvf9Ss623VQ5DA`); the
/// contract states its bytes.
#[verifier::external_body]
pub(crate) fn legacy_token_program_id() -> (id: Pubkey)
    ensures
        id.0@ == spec_token_program_bytes(),
{
    Pubkey(anchor_spl::token::ID.to_bytes())
}

} // verus!
