//! Base58 text of raw bytes, as produced by the `bs58` crate.

use vstd::prelude::*;

verus! {

/// The text that `bs58` produces for `bytes` with its default (Bitcoin)
/// alphabet. The encoding is a function of the bytes alone; nothing more is
/// claimed about it here.
pub uninterp spec fn base58_text(bytes: Seq<u8>) -> Seq<char>;

/// Calls `bs58::encode(bytes).into_string()`.
///
/// Trusted: the returned string is the base58 text of `bytes`. The call
/// encodes into a growable `String`, for which `bs58` reports no error.
#[verifier::external_body]
pub(crate) fn encode(bytes: &[u8]) -> (text: String)
    ensures
        text@ == base58_text(bytes@),
{
    bs58::encode(bytes).into_string()
}

/// Renders a 32-byte public key in its canonical display form.
pub fn get_b58_string(data: [u8; 32]) -> (text: Option<String>)
    ensures
        text matches Some(s) && s@ == base58_text(data@),
{
    Some(encode(data.as_slice()))
}

} // verus!
