//! Program-derived addresses of the protocol's accounts.
use vstd::prelude::*;

use crate::constants::{
    ESCROW_SEED, ESCROW_TOKEN_SEED, PROTOCOL_SEED, ROLE_SEED, VAULT_ASSET_SEED, VAULT_SEED,
    VAULT_TOKEN_SEED, WITHDRAWAL_SEED,
};
use crate::pubkey::{program_id, spec_program_id, Pubkey};

verus! {

/// The canonical program-derived address for `seeds` under `program_id` and
/// its bump (the highest bump, from 255 down, for which the derived point lies
/// off the curve), or none when no bump works or the seeds are too many or too
/// long.
pub uninterp spec fn program_address_search(seeds: Seq<Seq<u8>>, program_id: Seq<u8>) -> Option<
    (Seq<u8>, u8),
>;

/// The byte strings held by a list of seeds.
pub open spec fn seed_bytes(seeds: Seq<Vec<u8>>) -> Seq<Seq<u8>> {
    seeds.map_values(|s: Vec<u8>| s@)
}

/// Calls `Pubkey::try_find_program_address` (the non-panicking form of
/// `find_program_address`); the contract names its result, which depends on
/// the seeds and the program id alone.
#[verifier::external_body]
fn try_find_program_address(seeds: &Vec<Vec<u8>>, program: &Pubkey) -> (found: Option<
    (Pubkey, u8),
>)
    ensures
        found is Some == program_address_search(seed_bytes(seeds@), program.0@) is Some,
        found matches Some((key, bump)) ==> program_address_search(
            seed_bytes(seeds@),
            program.0@,
        ) == Some((key.0@, bump)),
{
    let refs: Vec<&[u8]> = seeds.iter().map(|s| s.as_slice()).collect();
    let program = anchor_lang::prelude::Pubkey::new_from_array(program.0);
    anchor_lang::prelude::Pubkey::try_find_program_address(&refs, &program).map(
        |(key, bump)| (Pubkey(key.to_bytes()), bump),
    )
}

/// The address and bump derived from `seeds` under this program, when one exists.
pub open spec fn spec_derived(seeds: Seq<Seq<u8>>) -> Option<(Seq<u8>, u8)> {
    program_address_search(seeds, spec_program_id().0@)
}

/// Whether `found` reports exactly the derivation from `seeds` under this program.
pub open spec fn derivation_matches(found: Option<(Pubkey, u8)>, seeds: Seq<Seq<u8>>) -> bool {
    &&& found is Some == spec_derived(seeds) is Some
    &&& found matches Some((key, bump)) ==> spec_derived(seeds) == Some((key.0@, bump))
}

fn derive(seeds: Vec<Vec<u8>>) -> (found: Option<(Pubkey, u8)>)
    ensures
        derivation_matches(found, seed_bytes(seeds@)),
{
    let id = program_id();
    try_find_program_address(&seeds, &id)
}

fn key_seed(key: &Pubkey) -> (seed: Vec<u8>)
    ensures
        seed@ == key.0@,
{
    let mut seed: Vec<u8> = Vec::new();
    crate::codec::push_key(&mut seed, key);
    seed
}

fn u64_seed(x: u64) -> (seed: Vec<u8>)
    ensures
        seed@ == crate::codec::le_u64(x),
{
    let mut seed: Vec<u8> = Vec::new();
    crate::codec::push_u64(&mut seed, x);
    seed
}

fn slice_seed(s: &[u8]) -> (seed: Vec<u8>)
    ensures
        seed@ == s@,
{
    let mut seed: Vec<u8> = Vec::new();
    crate::codec::push_bytes(&mut seed, s);
    seed
}

/// Seeds of the role assignment of `principal` in `vault`.
pub open spec fn role_seeds(vault: Pubkey, principal: Pubkey) -> Seq<Seq<u8>> {
    seq![ROLE_SEED@, vault.0@, principal.0@]
}

/// The role assignment address of `principal` in `vault`: `[b"role", vault, principal]`.
pub fn role_address(vault: &Pubkey, principal: &Pubkey) -> (found: Option<(Pubkey, u8)>)
    ensures
        derivation_matches(found, role_seeds(*vault, *principal)),
{
    let seeds = vec![slice_seed(ROLE_SEED.as_slice()), key_seed(vault), key_seed(principal)];
    assert(seed_bytes(seeds@) =~= role_seeds(*vault, *principal));
    derive(seeds)
}

/// Seeds of the protocol configuration.
pub open spec fn protocol_seeds() -> Seq<Seq<u8>> {
    seq![PROTOCOL_SEED@]
}

/// The protocol configuration address: `[b"protocol"]`.
pub fn protocol_address() -> (found: Option<(Pubkey, u8)>)
    ensures
        derivation_matches(found, protocol_seeds()),
{
    let seeds = vec![slice_seed(PROTOCOL_SEED.as_slice())];
    assert(seed_bytes(seeds@) =~= protocol_seeds());
    derive(seeds)
}

/// Seeds of the escrow `escrow_id` of `maker`.
pub open spec fn escrow_seeds(maker: Pubkey, escrow_id: u64) -> Seq<Seq<u8>> {
    seq![ESCROW_SEED@, maker.0@, crate::codec::le_u64(escrow_id)]
}

/// The escrow address: `[b"escrow", maker, escrow_id_le]`.
pub fn escrow_address(maker: &Pubkey, escrow_id: u64) -> (found: Option<(Pubkey, u8)>)
    ensures
        derivation_matches(found, escrow_seeds(*maker, escrow_id)),
{
    let seeds = vec![slice_seed(ESCROW_SEED.as_slice()), key_seed(maker), u64_seed(escrow_id)];
    assert(seed_bytes(seeds@) =~= escrow_seeds(*maker, escrow_id));
    derive(seeds)
}

/// Seeds of an escrow's custody token account.
pub open spec fn escrow_token_seeds(escrow: Pubkey) -> Seq<Seq<u8>> {
    seq![ESCROW_TOKEN_SEED@, escrow.0@]
}

/// The escrow custody token account address: `[b"escrow_token", escrow]`.
pub fn escrow_token_address(escrow: &Pubkey) -> (found: Option<(Pubkey, u8)>)
    ensures
        derivation_matches(found, escrow_token_seeds(*escrow)),
{
    let seeds = vec![slice_seed(ESCROW_TOKEN_SEED.as_slice()), key_seed(escrow)];
    assert(seed_bytes(seeds@) =~= escrow_token_seeds(*escrow));
    derive(seeds)
}

/// Seeds of the vault `vault_id` in the namespace of `namespace_authority`.
pub open spec fn vault_seeds(namespace_authority: Pubkey, vault_id: u64) -> Seq<Seq<u8>> {
    seq![VAULT_SEED@, namespace_authority.0@, crate::codec::le_u64(vault_id)]
}

/// The vault address: `[b"vault", namespace_authority, vault_id_le]`.
pub fn vault_address(namespace_authority: &Pubkey, vault_id: u64) -> (found: Option<(Pubkey, u8)>)
    ensures
        derivation_matches(found, vault_seeds(*namespace_authority, vault_id)),
{
    let seeds = vec![
        slice_seed(VAULT_SEED.as_slice()),
        key_seed(namespace_authority),
        u64_seed(vault_id),
    ];
    assert(seed_bytes(seeds@) =~= vault_seeds(*namespace_authority, vault_id));
    derive(seeds)
}

/// Seeds of the asset state of `mint` in `vault`.
pub open spec fn vault_asset_seeds(vault: Pubkey, mint: Pubkey) -> Seq<Seq<u8>> {
    seq![VAULT_ASSET_SEED@, vault.0@, mint.0@]
}

/// The vault asset address: `[b"vault_asset", vault, mint]`.
pub fn vault_asset_address(vault: &Pubkey, mint: &Pubkey) -> (found: Option<(Pubkey, u8)>)
    ensures
        derivation_matches(found, vault_asset_seeds(*vault, *mint)),
{
    let seeds = vec![slice_seed(VAULT_ASSET_SEED.as_slice()), key_seed(vault), key_seed(mint)];
    assert(seed_bytes(seeds@) =~= vault_asset_seeds(*vault, *mint));
    derive(seeds)
}

/// Seeds of the custody token account of `mint` in `vault`.
pub open spec fn vault_token_seeds(vault: Pubkey, mint: Pubkey) -> Seq<Seq<u8>> {
    seq![VAULT_TOKEN_SEED@, vault.0@, mint.0@]
}

/// The vault custody token account address: `[b"vault_token", vault, mint]`.
pub fn vault_token_address(vault: &Pubkey, mint: &Pubkey) -> (found: Option<(Pubkey, u8)>)
    ensures
        derivation_matches(found, vault_token_seeds(*vault, *mint)),
{
    let seeds = vec![slice_seed(VAULT_TOKEN_SEED.as_slice()), key_seed(vault), key_seed(mint)];
    assert(seed_bytes(seeds@) =~= vault_token_seeds(*vault, *mint));
    derive(seeds)
}

/// Seeds of the withdrawal request `withdrawal_id` of `vault`.
pub open spec fn withdrawal_seeds(vault: Pubkey, withdrawal_id: u64) -> Seq<Seq<u8>> {
    seq![WITHDRAWAL_SEED@, vault.0@, crate::codec::le_u64(withdrawal_id)]
}

/// The withdrawal request address: `[b"withdrawal", vault, withdrawal_id_le]`.
pub fn withdrawal_address(vault: &Pubkey, withdrawal_id: u64) -> (found: Option<(Pubkey, u8)>)
    ensures
        derivation_matches(found, withdrawal_seeds(*vault, withdrawal_id)),
{
    let seeds = vec![
        slice_seed(WITHDRAWAL_SEED.as_slice()),
        key_seed(vault),
        u64_seed(withdrawal_id),
    ];
    assert(seed_bytes(seeds@) =~= withdrawal_seeds(*vault, withdrawal_id));
    derive(seeds)
}

} // verus!
