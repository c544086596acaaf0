//! Base64 transport encoding for the delegate handshake.
//!
//! The delegate strategy hands the previous clipboard contents to a fresh
//! subprocess as a single base64 line on its standard input. The encoding
//! itself is done by the `base64` crate; its result is named by the
//! uninterpreted function `base64_of`, and decoding is specified as the
//! exact inverse of that name, which is all the verified logic needs for
//! the round trip.

use vstd::prelude::*;
use base64::Engine;

verus! {

/// The canonical padded standard-alphabet base64 rendering of `b`.
pub uninterp spec fn base64_of(b: Seq<u8>) -> Seq<char>;

/// Relies on base64's `STANDARD` engine `encode`: canonical padded base64,
/// four output characters for every started group of three input bytes.
#[verifier::external_body]
pub fn base64_encode(data: &[u8]) -> (r: String)
    ensures
        r@ == base64_of(data@),
        r@.len() == 4 * ((data@.len() + 2) / 3),
{
    base64::engine::general_purpose::STANDARD.encode(data)
}

/// Relies on base64's `STANDARD` engine `decode`: it accepts every string
/// the engine's `encode` produces and returns exactly the bytes that were
/// encoded. The engine requires canonical padding and rejects non-zero
/// trailing bits, so the strings it decodes are exactly the canonical
/// encodings: decoding inverts the encoding, and whatever decodes is
/// itself the encoding of its result.
#[verifier::external_body]
pub fn base64_decode(text: &str) -> (r: Option<Vec<u8>>)
    ensures
        r matches Some(v) ==> (forall|orig: Seq<u8>| text@ == base64_of(orig) ==> v@ == orig),
        r matches Some(v) ==> text@ == base64_of(v@),
        r is None ==> (forall|orig: Seq<u8>| text@ != base64_of(orig)),
{
    match base64::engine::general_purpose::STANDARD.decode(text) {
        Ok(v) => Some(v),
        Err(_) => None,
    }
}

} // verus!
