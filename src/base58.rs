//! Base58 (Bitcoin alphabet) text, through the `bs58` crate.

use vstd::prelude::*;

verus! {

/// The bytes that a base58 string decodes to, or `None` where it is not valid base58.
pub uninterp spec fn base58_decoding(s: Seq<char>) -> Option<Seq<u8>>;

/// The base58 string of a byte sequence.
pub uninterp spec fn base58_encoding(b: Seq<u8>) -> Seq<char>;

#[verifier::external_type_specification]
#[verifier::external_body]
pub struct ExBase58DecodeError(bs58::decode::Error);

/// Relies on `bs58::decode(s).into_vec()`: the decoded bytes, or an error where
/// `s` holds a character outside the alphabet.
#[verifier::external_body]
pub(crate) fn decode_text(s: &str) -> (r: Result<Vec<u8>, bs58::decode::Error>)
    ensures
        match r {
            Ok(v) => base58_decoding(s@) == Some(v@),
            Err(_) => base58_decoding(s@) is None,
        },
{
    bs58::decode(s).into_vec()
}

/// Relies on `bs58::encode(b).into_string()`: base58 text that decodes back to
/// exactly `b` (leading zero bytes become leading `1`s), and is empty only for
/// empty input.
#[verifier::external_body]
pub(crate) fn encode_bytes(b: &[u8]) -> (r: String)
    ensures
        r@ == base58_encoding(b@),
        base58_decoding(r@) == Some(b@),
        b@.len() > 0 ==> r@.len() > 0,
{
    bs58::encode(b).into_string()
}

} // verus!
