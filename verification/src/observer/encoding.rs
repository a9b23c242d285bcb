//! Base64 payloads of log lines and RPC account data.
use vstd::prelude::*;

use base64::Engine;

use crate::observer::text::{chars_of, same_text};

verus! {

/// Standard Base64 (RFC 4648 alphabet, with padding) decoding of `text`, as
/// the `base64` crate's `STANDARD` engine performs it: the bytes, or none
/// when the text is not valid Base64.
pub uninterp spec fn base64_standard_decoding(text: Seq<char>) -> Option<Seq<u8>>;

/// Calls `base64::engine::general_purpose::STANDARD.decode(text)`; the
/// contract names the result, which depends on the text alone.
#[verifier::external_body]
pub(crate) fn base64_decode(text: &str) -> (bytes: Option<Vec<u8>>)
    ensures
        bytes matches Some(b) ==> base64_standard_decoding(text@) == Some(b@),
        bytes is None ==> base64_standard_decoding(text@) is None,
{
    match base64::engine::general_purpose::STANDARD.decode(text) {
        Ok(b) => Some(b),
        Err(_) => None,
    }
}

/// Why account data returned by the RPC could not be read.
#[derive(Clone, Copy, Debug, PartialEq, Eq, Structural)]
pub enum AccountDataError {
    /// The data is not in the requested `base64` encoding.
    UnexpectedEncoding,
    /// The data is not valid Base64.
    InvalidBase64,
}

/// The bytes of account data returned as `[data, encoding]`: only the
/// `base64` encoding is accepted.
pub open spec fn spec_decode_account_data(data: Seq<char>, encoding: Seq<char>) -> Result<
    Seq<u8>,
    AccountDataError,
> {
    if encoding != "base64"@ {
        Err(AccountDataError::UnexpectedEncoding)
    } else {
        match base64_standard_decoding(data) {
            None => Err(AccountDataError::InvalidBase64),
            Some(bytes) => Ok(bytes),
        }
    }
}

/// Decodes account data returned by the RPC in the `base64` encoding.
pub fn decode_account_data(data: &str, encoding: &str) -> (r: Result<Vec<u8>, AccountDataError>)
    ensures
        r is Ok <==> spec_decode_account_data(data@, encoding@) is Ok,
        r matches Ok(bytes) ==> spec_decode_account_data(data@, encoding@) == Ok::<
            Seq<u8>,
            AccountDataError,
        >(bytes@),
        r matches Err(e) ==> spec_decode_account_data(data@, encoding@) == Err::<
            Seq<u8>,
            AccountDataError,
        >(e),
{
    let expected = chars_of("base64");
    if !same_text(&chars_of(encoding), &expected) {
        return Err(AccountDataError::UnexpectedEncoding);
    }
    match base64_decode(data) {
        Some(bytes) => Ok(bytes),
        None => Err(AccountDataError::InvalidBase64),
    }
}

} // verus!
