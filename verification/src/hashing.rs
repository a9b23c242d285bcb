//! SHA-256 digests and the 8-byte Anchor discriminators derived from them.
use vstd::prelude::*;

use sha2::Digest;

verus! {

/// The SHA-256 digest of a byte string.
pub uninterp spec fn sha256_digest(data: Seq<u8>) -> Seq<u8>;

/// Calls `sha2::Sha256::digest`; the contract names the digest of the input.
#[verifier::external_body]
fn sha256(data: &[u8]) -> (digest: [u8; 32])
    ensures
        digest@ == sha256_digest(data@),
{
    sha2::Sha256::digest(data).into()
}

/// The bytes hashed for a discriminator: `"{namespace}:{name}"` in UTF-8.
pub open spec fn discriminator_preimage(namespace: Seq<char>, name: Seq<char>) -> Seq<u8> {
    vstd::utf8::encode_utf8(namespace) + vstd::utf8::encode_utf8(":"@) + vstd::utf8::encode_utf8(
        name,
    )
}

/// The first eight bytes of a byte string (always eight entries long).
pub open spec fn first_eight(s: Seq<u8>) -> Seq<u8> {
    Seq::new(8, |i: int| s[i])
}

/// The first eight bytes of the SHA-256 digest of `"{namespace}:{name}"`.
pub open spec fn spec_discriminator(namespace: Seq<char>, name: Seq<char>) -> Seq<u8> {
    first_eight(sha256_digest(discriminator_preimage(namespace, name)))
}

/// Anchor's discriminator for an item called `name` in `namespace`
/// (`"account"` for account data, `"event"` for events).
pub fn namespaced_discriminator(namespace: &str, name: &str) -> (disc: [u8; 8])
    ensures
        disc@ == spec_discriminator(namespace@, name@),
{
    let mut preimage: Vec<u8> = Vec::new();
    crate::codec::push_bytes(&mut preimage, namespace.as_bytes());
    crate::codec::push_bytes(&mut preimage, ":".as_bytes());
    crate::codec::push_bytes(&mut preimage, name.as_bytes());
    let digest = sha256(preimage.as_slice());
    let disc: [u8; 8] = [
        digest[0],
        digest[1],
        digest[2],
        digest[3],
        digest[4],
        digest[5],
        digest[6],
        digest[7],
    ];
    assert(disc@ =~= first_eight(digest@));
    disc
}

/// The 8-byte tag that precedes the payload of the event called `name`.
pub open spec fn spec_event_discriminator(name: Seq<char>) -> Seq<u8> {
    spec_discriminator("event"@, name)
}

/// The 8-byte tag that precedes the payload of the event called `name`:
/// the first eight bytes of the SHA-256 digest of `"event:{name}"`.
pub fn discriminator(name: &str) -> (disc: [u8; 8])
    ensures
        disc@ == spec_event_discriminator(name@),
{
    namespaced_discriminator("event", name)
}

} // verus!
