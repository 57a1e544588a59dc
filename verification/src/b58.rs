//! Base-58 address handling: the two calls into the `bs58` crate, each behind
//! a trusted wrapper whose result is named, and the verified address decoder
//! built on them.
use vstd::prelude::*;

use crate::model::RainError;

verus! {

/// What `bs58::decode(..).into_vec()` returns for a given character sequence:
/// `Some` with the decoded bytes where the text is valid base-58 under the
/// Bitcoin alphabet, `None` where it is not. The result is a function of the
/// characters alone.
pub uninterp spec fn b58_decode_spec(s: Seq<char>) -> Option<Seq<u8>>;

/// What `bs58::encode(..).into_string()` returns for a given byte sequence;
/// a function of the bytes alone.
pub uninterp spec fn b58_encode_spec(b: Seq<u8>) -> Seq<char>;

/// Relies on `bs58::decode` with the default (Bitcoin) alphabet and no
/// checksum: decoding is deterministic in the input text, returns the decoded
/// bytes for valid base-58 text and an error otherwise, and does not panic.
#[verifier::external_body]
fn b58_decode(s: &str) -> (r: Option<Vec<u8>>)
    ensures
        match r {
            Some(v) => b58_decode_spec(s@) == Some(v@),
            None => b58_decode_spec(s@) is None,
        },
{
    bs58::decode(s).into_vec().ok()
}

/// Relies on `bs58::encode` with the default (Bitcoin) alphabet and no
/// checksum: encoding is deterministic in the input bytes, always succeeds
/// when writing into a growable string, and does not panic.
#[verifier::external_body]
pub(crate) fn b58_encode(b: &Vec<u8>) -> (r: String)
    ensures
        r@ == b58_encode_spec(b@),
{
    bs58::encode(b).into_string()
}

/// The number of bytes in a raw on-chain address.
pub const ADDRESS_LEN: usize = 32;

/// The decoded form of an address given as text: the base-58 decoding, if it
/// is valid and has exactly [`ADDRESS_LEN`] bytes.
pub open spec fn address_of(s: Seq<char>) -> Option<Seq<u8>> {
    match b58_decode_spec(s) {
        Some(b) => if b.len() == ADDRESS_LEN { Some(b) } else { None },
        None => None,
    }
}

/// Converts a textual address into its raw binary form; fails with
/// `InvalidAddress` exactly when the text is not valid base-58 or decodes to
/// a length other than [`ADDRESS_LEN`].
pub fn decode_address(s: &str) -> (r: Result<Vec<u8>, RainError>)
    ensures
        match r {
            Ok(v) => address_of(s@) == Some(v@),
            Err(e) => e == RainError::InvalidAddress && address_of(s@) is None,
        },
{
    match b58_decode(s) {
        Some(v) => {
            if v.len() == ADDRESS_LEN {
                Ok(v)
            } else {
                Err(RainError::InvalidAddress)
            }
        },
        None => Err(RainError::InvalidAddress),
    }
}

} // verus!
