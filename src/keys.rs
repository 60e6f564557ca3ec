//! Decoding of base58 keypairs and recipient addresses.

use vstd::prelude::*;
use crate::base58::{base58_decoding, base58_encoding, decode_text, encode_bytes};

verus! {

/// Bytes in an encoded keypair: a 32-byte secret followed by its 32-byte public key.
pub const KEYPAIR_LENGTH: usize = 64;

/// Bytes in a public address.
pub const ADDRESS_LENGTH: usize = 32;

/// Whether 64 bytes form a keypair whose secret half derives its public half.
pub uninterp spec fn keypair_bytes_accepted(b: Seq<u8>) -> bool;

/// Relies on `solana_sdk::signature::Keypair::from_bytes`: it accepts the bytes
/// exactly when they hold a secret key followed by the public key derived from it.
#[verifier::external_body]
fn keypair_bytes_valid(b: &[u8]) -> (r: bool)
    ensures
        r == keypair_bytes_accepted(b@),
{
    solana_sdk::signature::Keypair::from_bytes(b).is_ok()
}

/// Why a key string was refused.
#[derive(Debug, Clone, Copy, PartialEq, Eq, Structural)]
pub enum KeyError {
    /// The string is not valid base58.
    DecodeError,
    /// The string decodes to this many bytes, which is not a valid length.
    InvalidKeyLength(usize),
    /// The 64 bytes do not form a keypair.
    InvalidKeyBytes,
}

/// What decoding `s` as a keypair gives: its 64 bytes, or the error.
pub open spec fn keypair_from_text(s: Seq<char>) -> Result<Seq<u8>, KeyError> {
    match base58_decoding(s) {
        None => Err(KeyError::DecodeError),
        Some(b) => if b.len() != KEYPAIR_LENGTH {
            Err(KeyError::InvalidKeyLength(b.len() as usize))
        } else if !keypair_bytes_accepted(b) {
            Err(KeyError::InvalidKeyBytes)
        } else {
            Ok(b)
        },
    }
}

/// What decoding `s` as a recipient gives: a 32-byte address as it stands, or
/// the public half of a 64-byte keypair.
pub open spec fn address_from_text(s: Seq<char>) -> Result<Seq<u8>, KeyError> {
    match base58_decoding(s) {
        None => Err(KeyError::DecodeError),
        Some(b) => if b.len() == ADDRESS_LENGTH {
            Ok(b)
        } else if b.len() != KEYPAIR_LENGTH {
            Err(KeyError::InvalidKeyLength(b.len() as usize))
        } else if !keypair_bytes_accepted(b) {
            Err(KeyError::InvalidKeyBytes)
        } else {
            Ok(b.subrange(ADDRESS_LENGTH as int, KEYPAIR_LENGTH as int))
        },
    }
}

/// A string that decodes to any number of bytes other than 64 is refused as a
/// keypair with that length, never truncated or padded.
pub proof fn wrong_length_never_a_keypair(s: Seq<char>)
    requires
        base58_decoding(s) matches Some(b) && b.len() != KEYPAIR_LENGTH,
    ensures
        keypair_from_text(s) == Err::<Seq<u8>, KeyError>(
            KeyError::InvalidKeyLength(base58_decoding(s).unwrap().len() as usize),
        ),
{
}

/// A signing keypair held as its 64 bytes: the secret key, then the public key.
pub struct KeypairBytes {
    bytes: Vec<u8>,
}

impl View for KeypairBytes {
    type V = Seq<u8>;

    closed spec fn view(&self) -> Seq<u8> {
        self.bytes@
    }
}

impl KeypairBytes {
    pub open spec fn wf(&self) -> bool {
        self@.len() == KEYPAIR_LENGTH && keypair_bytes_accepted(self@)
    }

    /// The public half, which is the account's address.
    pub open spec fn public_spec(&self) -> Seq<u8> {
        self@.subrange(ADDRESS_LENGTH as int, KEYPAIR_LENGTH as int)
    }

    /// The 64 bytes.
    pub fn to_bytes(&self) -> (r: Vec<u8>)
        ensures
            r@ == self@,
    {
        self.bytes.clone()
    }

    /// The 32 bytes of the public key.
    pub fn public_key(&self) -> (r: Vec<u8>)
        requires
            self.wf(),
        ensures
            r@ == self.public_spec(),
    {
        take_range(&self.bytes, ADDRESS_LENGTH, KEYPAIR_LENGTH)
    }

    /// The account address as base58 text.
    pub fn address(&self) -> (r: String)
        requires
            self.wf(),
        ensures
            r@ == base58_encoding(self.public_spec()),
            r@.len() > 0,
    {
        let p = self.public_key();
        encode_bytes(p.as_slice())
    }

    /// The keypair as base58 text, which decodes back to the same keypair.
    pub fn to_base58_string(&self) -> (r: String)
        requires
            self.wf(),
        ensures
            r@ == base58_encoding(self@),
            keypair_from_text(r@) == Ok::<Seq<u8>, KeyError>(self@),
    {
        encode_bytes(self.bytes.as_slice())
    }
}

/// The bytes of `v` from `lo` up to `hi`.
fn take_range(v: &Vec<u8>, lo: usize, hi: usize) -> (r: Vec<u8>)
    requires
        lo <= hi <= v@.len(),
    ensures
        r@ == v@.subrange(lo as int, hi as int),
{
    let mut r: Vec<u8> = Vec::new();
    let mut i: usize = lo;
    while i < hi
        invariant
            lo <= i <= hi <= v@.len(),
            r@ == v@.subrange(lo as int, i as int),
        decreases hi - i,
    {
        r.push(v[i]);
        i = i + 1;
        assert(r@ =~= v@.subrange(lo as int, i as int));
    }
    r
}

/// Decodes a base58 keypair: 64 bytes, a secret key followed by its public key.
pub fn parse_keypair_base58(s: &str) -> (r: Result<KeypairBytes, KeyError>)
    ensures
        match r {
            Ok(kp) => kp.wf() && keypair_from_text(s@) == Ok::<Seq<u8>, KeyError>(kp@),
            Err(e) => keypair_from_text(s@) == Err::<Seq<u8>, KeyError>(e),
        },
{
    let bytes = match decode_text(s) {
        Ok(b) => b,
        Err(_) => return Err(KeyError::DecodeError),
    };
    if bytes.len() != KEYPAIR_LENGTH {
        return Err(KeyError::InvalidKeyLength(bytes.len()));
    }
    if !keypair_bytes_valid(bytes.as_slice()) {
        return Err(KeyError::InvalidKeyBytes);
    }
    Ok(KeypairBytes { bytes })
}

/// Decodes a recipient: a base58 public address (32 bytes), or a base58
/// keypair (64 bytes) whose public half is taken.
pub fn parse_address_base58(s: &str) -> (r: Result<Vec<u8>, KeyError>)
    ensures
        match r {
            Ok(a) => a@.len() == ADDRESS_LENGTH && address_from_text(s@) == Ok::<Seq<u8>, KeyError>(a@),
            Err(e) => address_from_text(s@) == Err::<Seq<u8>, KeyError>(e),
        },
{
    let bytes = match decode_text(s) {
        Ok(b) => b,
        Err(_) => return Err(KeyError::DecodeError),
    };
    if bytes.len() == ADDRESS_LENGTH {
        return Ok(bytes);
    }
    if bytes.len() != KEYPAIR_LENGTH {
        return Err(KeyError::InvalidKeyLength(bytes.len()));
    }
    if !keypair_bytes_valid(bytes.as_slice()) {
        return Err(KeyError::InvalidKeyBytes);
    }
    Ok(take_range(&bytes, ADDRESS_LENGTH, KEYPAIR_LENGTH))
}

/// An address as base58 text.
pub fn address_to_base58(a: &Vec<u8>) -> (r: String)
    ensures
        r@ == base58_encoding(a@),
        a@.len() > 0 ==> r@.len() > 0,
{
    encode_bytes(a.as_slice())
}

} // verus!
