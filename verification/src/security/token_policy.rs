//! Fail-closed token semantics policy: legacy SPL Token mints, and Token-2022
//! mints whose extension list is empty. Also reads mint and token accounts
//! from their raw data, as the program's account types do.
use vstd::prelude::*;

use anchor_spl::token_interface::spl_token_2022::extension::{
    BaseStateWithExtensions, StateWithExtensions,
};
use anchor_spl::token_interface::spl_token_2022::state::{Account, Mint};

use crate::pubkey::{keys_equal, legacy_token_program_id, spec_token_program_bytes, Pubkey};
use crate::state::{MintAccount, TokenAccount};

verus! {

/// A mint read from account data with spl-token-2022's layout (legacy mints
/// share its base layout): the decimals, and the extension types (as their
/// `u16` tags) when the extension data is well formed. None when the data is
/// not an initialized mint.
pub uninterp spec fn mint_layout(data: Seq<u8>) -> Option<(u8, Option<Seq<u16>>)>;

/// Calls `StateWithExtensions::<Mint>::unpack` of spl-token-2022 and, on
/// success, `get_extension_types`; the contract names the decimals and the
/// extension tags that result, which depend on the data alone.
#[verifier::external_body]
fn unpack_mint(data: &[u8]) -> (layout: Option<(u8, Option<Vec<u16>>)>)
    ensures
        layout is None ==> mint_layout(data@) is None,
        layout matches Some((d, None)) ==> mint_layout(data@) == Some((d, None::<Seq<u16>>)),
        layout matches Some((d, Some(tags))) ==> mint_layout(data@) == Some((d, Some(tags@))),
{
    let state = match StateWithExtensions::<Mint>::unpack(data) {
        Ok(state) => state,
        Err(_) => return None,
    };
    let tags = match state.get_extension_types() {
        Ok(types) => Some(types.into_iter().map(u16::from).collect()),
        Err(_) => None,
    };
    Some((state.base.decimals, tags))
}

/// A token account read from account data with spl-token-2022's layout
/// (legacy accounts share its base layout): its mint, owner and amount. None
/// when the data is not an initialized token account.
pub uninterp spec fn token_account_layout(data: Seq<u8>) -> Option<(Seq<u8>, Seq<u8>, u64)>;

/// Calls `StateWithExtensions::<Account>::unpack` of spl-token-2022; the
/// contract names the mint, owner and amount read, which depend on the data
/// alone.
#[verifier::external_body]
fn unpack_token_account(data: &[u8]) -> (fields: Option<([u8; 32], [u8; 32], u64)>)
    ensures
        fields is None ==> token_account_layout(data@) is None,
        fields matches Some((mint, owner, amount)) ==> token_account_layout(data@) == Some(
            (mint@, owner@, amount),
        ),
{
    match StateWithExtensions::<Account>::unpack(data) {
        Ok(state) => Some((state.base.mint.to_bytes(), state.base.owner.to_bytes(), state.base.amount)),
        Err(_) => None,
    }
}

/// The mint data could not be read as a Token-2022 mint.
#[derive(Clone, Copy, Debug, PartialEq, Eq, Structural)]
pub struct InvalidMintData;

/// The policy's verdict on a mint owned by `owner` with account data `data`.
pub open spec fn spec_mint_extensions_supported(owner: Pubkey, data: Seq<u8>) -> Result<
    bool,
    InvalidMintData,
> {
    if owner.0@ == spec_token_program_bytes() {
        Ok(true)
    } else {
        match mint_layout(data) {
            Some((_, Some(types))) => Ok(types.len() == 0),
            _ => Err(InvalidMintData),
        }
    }
}

/// Returns whether a mint satisfies the fail-closed v1 token policy. Legacy
/// SPL mints are accepted; other mints are accepted only when their
/// extension list is empty.
pub fn mint_extensions_supported(owner: &Pubkey, data: &[u8]) -> (r: Result<bool, InvalidMintData>)
    ensures
        r == spec_mint_extensions_supported(*owner, data@),
{
    let legacy = legacy_token_program_id();
    proof {
        crate::pubkey::lemma_pubkey_eq(*owner, legacy);
    }
    if keys_equal(owner, &legacy) {
        return Ok(true);
    }
    match unpack_mint(data) {
        Some((_, Some(types))) => Ok(types.len() == 0),
        _ => Err(InvalidMintData),
    }
}

/// The account data is not an initialized account of the expected kind.
#[derive(Clone, Copy, Debug, PartialEq, Eq, Structural)]
pub struct InvalidAccountData;

impl MintAccount {
    /// Reads the mint at `key`, owned by `program`, from its account data;
    /// the data itself is kept for the extension policy.
    pub fn read(key: Pubkey, program: Pubkey, data: Vec<u8>) -> (r: Result<
        MintAccount,
        InvalidAccountData,
    >)
        ensures
            r is Ok == mint_layout(data@) is Some,
            r matches Ok(mint) ==> {
                &&& mint.key == key
                &&& mint.program == program
                &&& mint.data@ == data@
                &&& mint_layout(data@) matches Some((decimals, _)) && mint.decimals == decimals
            },
    {
        match unpack_mint(data.as_slice()) {
            Some((decimals, _)) => Ok(MintAccount { key, program, decimals, data }),
            None => Err(InvalidAccountData),
        }
    }
}

impl TokenAccount {
    /// Reads the token account at `key`, owned by `program`, from its account
    /// data.
    pub fn read(key: Pubkey, program: Pubkey, data: &[u8]) -> (r: Result<
        TokenAccount,
        InvalidAccountData,
    >)
        ensures
            r is Ok == token_account_layout(data@) is Some,
            r matches Ok(account) ==> account.key == key && account.program == program
                && token_account_layout(data@) == Some(
                (account.mint.0@, account.owner.0@, account.amount),
            ),
    {
        match unpack_token_account(data) {
            Some((mint, owner, amount)) => Ok(
                TokenAccount { key, program, mint: Pubkey(mint), owner: Pubkey(owner), amount },
            ),
            None => Err(InvalidAccountData),
        }
    }
}

} // verus!
