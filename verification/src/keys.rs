//! The keypair model and the narrow seam to the secp256k1 library.
//!
//! The library works on plain byte encodings: a secret key is its 32
//! scalar bytes, a public key its 65-byte uncompressed SEC1 encoding.
//! Generating a keypair and validating stored key text are the curve
//! library's work and stand behind trusted wrappers.

use std::str::FromStr;
use vstd::prelude::*;

use crate::hex::{hex_decodes_to, hex_of, is_hex_char};
use crate::address::spec_compress;

verus! {

/// The uncompressed SEC1 encoding of the public key that secp256k1
/// derives from the given 32 secret-scalar bytes.
pub uninterp spec fn pubkey_bytes_of(sk: Seq<u8>) -> Seq<u8>;

/// The uncompressed SEC1 encoding of the point that secp256k1 parses
/// from the given hex text, when parsing succeeds.
pub uninterp spec fn point_from_text(s: Seq<char>) -> Seq<u8>;

/// Whether secp256k1 accepts the text as a secret-key encoding: 64 hex
/// digits whose scalar lies in the curve's valid range.
pub uninterp spec fn scalar_text_ok(s: Seq<char>) -> bool;

/// Whether secp256k1 accepts the text as a public-key encoding: the hex
/// of a point on the curve.
pub uninterp spec fn point_text_ok(s: Seq<char>) -> bool;

/// The value of key bytes read as one big-endian integer.
pub open spec fn be_bytes_val(b: Seq<u8>) -> int
    decreases b.len(),
{
    if b.len() == 0 {
        0
    } else {
        be_bytes_val(b.drop_last()) * 256 + b.last()
    }
}

/// The order of the secp256k1 group: valid secret scalars are exactly
/// the values from 1 up to one below this.
pub open spec fn curve_order() -> int {
    0xfffffffffffffffffffffffffffffffebaaedce6af48a03bbfd25e8cd0364141int
}

/// The 32 secret-scalar bytes of one keypair.
pub struct SecretScalar {
    bytes: Vec<u8>,
}

impl View for SecretScalar {
    type V = Seq<u8>;

    closed spec fn view(&self) -> Seq<u8> {
        self.bytes@
    }
}

impl SecretScalar {
    /// A secret scalar is exactly 32 bytes.
    pub open spec fn wf(&self) -> bool {
        self@.len() == 32
    }

    /// The raw 32 bytes.
    pub fn as_bytes(&self) -> (r: &Vec<u8>)
        ensures
            r@ == self@,
    {
        &self.bytes
    }
}

/// The 65-byte uncompressed SEC1 encoding of one public key.
pub struct PublicPoint {
    bytes: Vec<u8>,
}

impl View for PublicPoint {
    type V = Seq<u8>;

    closed spec fn view(&self) -> Seq<u8> {
        self.bytes@
    }
}

impl PublicPoint {
    /// An uncompressed encoding: 65 bytes behind the `0x04` tag.
    pub open spec fn wf(&self) -> bool {
        self@.len() == 65 && self@[0] == 4u8
    }

    /// Wraps an uncompressed SEC1 encoding.
    pub fn from_uncompressed_bytes(bytes: Vec<u8>) -> (r: Option<PublicPoint>)
        ensures
            bytes@.len() == 65 && bytes@[0] == 4u8 ==> (r matches Some(p) && p@ == bytes@ && p.wf()),
            !(bytes@.len() == 65 && bytes@[0] == 4u8) ==> r is None,
    {
        if bytes.len() == 65 && bytes[0] == 4 {
            Some(PublicPoint { bytes })
        } else {
            None
        }
    }

    /// The raw 65 bytes.
    pub fn as_bytes(&self) -> (r: &Vec<u8>)
        ensures
            r@ == self@,
    {
        &self.bytes
    }
}

/// Generates a fresh keypair from the operating system's entropy pool.
///
/// Relies on secp256k1's `generate_keypair` with the `rand` crate's
/// OS-seeded generator: `SecretKey::new` retries until the scalar lies
/// in the valid range 1 up to one below the curve order.  Relies on
/// `SecretKey::to_secret_bytes` and `PublicKey::serialize_uncompressed`
/// for the plain encodings, and on each key's `FromStr` accepting the
/// hex of what was serialized and parsing it back to the same key.
#[verifier::external_body]
pub fn generate_keypair() -> (r: (SecretScalar, PublicPoint))
    ensures
        r.0.wf(),
        r.1.wf(),
        1 <= be_bytes_val(r.0@) < curve_order(),
        r.1@ == pubkey_bytes_of(r.0@),
        scalar_text_ok(hex_of(r.0@)),
        point_text_ok(hex_of(spec_compress(r.1@))),
        point_from_text(hex_of(spec_compress(r.1@))) == r.1@,
{
    let (sk, pk) = secp256k1::generate_keypair(&mut secp256k1::rand::rng());
    (
        SecretScalar { bytes: sk.to_secret_bytes().to_vec() },
        PublicPoint { bytes: pk.serialize_uncompressed().to_vec() },
    )
}

/// Validates stored secret-key text and returns the scalar bytes.
///
/// Relies on secp256k1's `SecretKey::from_str`: it succeeds on exactly
/// the texts of 64 hex digits, either case, whose decoded scalar lies in
/// the valid range 1 up to one below the curve order, and it decodes the
/// same text the same way everywhere; `to_secret_bytes` returns the 32
/// scalar bytes.
#[verifier::external_body]
pub fn parse_secret_key(s: &str) -> (r: Option<SecretScalar>)
    ensures
        r is Some <==> scalar_text_ok(s@),
        r matches Some(k) ==> (k.wf() && hex_decodes_to(s@, k@) && 1 <= be_bytes_val(k@)
            < curve_order()),
        s@.len() != 64 ==> r is None,
        !(forall|i: int| 0 <= i < s@.len() ==> is_hex_char(#[trigger] s@[i])) ==> r is None,
{
    match secp256k1::SecretKey::from_str(s) {
        Ok(k) => Some(SecretScalar { bytes: k.to_secret_bytes().to_vec() }),
        Err(_) => None,
    }
}

/// Validates stored public-key text and returns the uncompressed encoding.
///
/// Relies on secp256k1's `PublicKey::from_str`: it succeeds on exactly
/// the texts of 66 or 130 hex digits that encode a point on the curve,
/// and it parses the same text to the same point everywhere;
/// `serialize_uncompressed` returns the point's 65-byte tagged SEC1
/// encoding.
#[verifier::external_body]
pub fn parse_public_key(s: &str) -> (r: Option<PublicPoint>)
    ensures
        r is Some <==> point_text_ok(s@),
        r matches Some(p) ==> (p.wf() && p@ == point_from_text(s@)),
        s@.len() != 66 && s@.len() != 130 ==> r is None,
{
    match secp256k1::PublicKey::from_str(s) {
        Ok(p) => Some(PublicPoint { bytes: p.serialize_uncompressed().to_vec() }),
        Err(_) => None,
    }
}

} // verus!
