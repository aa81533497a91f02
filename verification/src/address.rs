//! Deterministic derivation of the on-chain account address.
//!
//! The address of a public key is the trailing 20 bytes of the Keccak-256
//! digest of the key's 64 coordinate bytes (the uncompressed SEC1 encoding
//! without its leading tag byte).  The digest itself comes from an outside
//! hash implementation; everything around it is verified.

use vstd::prelude::*;

use crate::hex::{bytes_to_hex, check_hex_char, hex_decodes_to, hex_of, is_hex_char, nibble_of,
    nibble_val};
use crate::keys::PublicPoint;

verus! {

/// The Keccak-256 digest of a byte string, named but not restated here:
/// the digest is a pure function of its input alone.
pub uninterp spec fn keccak_of(data: Seq<u8>) -> Seq<u8>;

/// Relies on tiny_keccak's `Keccak::v256` / `update` / `finalize`:
/// one Keccak-256 digest of `data`, 32 bytes, a function of `data` alone.
#[verifier::external_body]
fn keccak256(data: &Vec<u8>) -> (r: Vec<u8>)
    ensures
        r@ == keccak_of(data@),
        r@.len() == 32,
{
    let mut out = [0u8; 32];
    let mut hasher = tiny_keccak::Keccak::v256();
    tiny_keccak::Hasher::update(&mut hasher, data.as_slice());
    tiny_keccak::Hasher::finalize(hasher, &mut out);
    out.to_vec()
}

/// The compressed SEC1 encoding of an uncompressed point encoding:
/// a parity tag for Y, then the 32 X bytes.
pub open spec fn spec_compress(p: Seq<u8>) -> Seq<u8> {
    seq![if p[64] % 2 == 0 { 2u8 } else { 3u8 }] + p.subrange(1, 33)
}

/// The address bytes of an uncompressed point encoding.
pub open spec fn spec_address_of(p: Seq<u8>) -> Seq<u8> {
    keccak_of(p.subrange(1, 65)).subrange(12, 32)
}

/// The address text stored in a wallet record: `0x` and 40 hex digits.
pub open spec fn addr_text_of(p: Seq<u8>) -> Seq<char> {
    "0x"@ + hex_of(spec_address_of(p))
}

/// A 20-byte account identifier.
pub struct AccountAddress {
    bytes: Vec<u8>,
}

impl View for AccountAddress {
    type V = Seq<u8>;

    closed spec fn view(&self) -> Seq<u8> {
        self.bytes@
    }
}

impl AccountAddress {
    /// An address is exactly 20 bytes.
    pub open spec fn wf(&self) -> bool {
        self@.len() == 20
    }

    /// Wraps 20 raw bytes as an address.
    pub fn from_bytes(bytes: Vec<u8>) -> (r: Option<AccountAddress>)
        ensures
            bytes@.len() == 20 ==> (r matches Some(a) && a@ == bytes@ && a.wf()),
            bytes@.len() != 20 ==> r is None,
    {
        if bytes.len() == 20 {
            Some(AccountAddress { bytes })
        } else {
            None
        }
    }

    /// The raw 20 bytes.
    pub fn as_bytes(&self) -> (r: &Vec<u8>)
        ensures
            r@ == self@,
    {
        &self.bytes
    }

    /// Parses `0x`-prefixed 40-digit hex address text, either case.
    /// Succeeds exactly on well-shaped address text.
    pub fn from_text(s: &str) -> (r: Option<AccountAddress>)
        ensures
            r matches Some(a) ==> (a.wf() && hex_decodes_to(s@.subrange(2, 42), a@)),
            r is Some <==> (s@.len() == 42 && s@[0] == '0' && s@[1] == 'x' && forall|i: int|
                2 <= i < 42 ==> is_hex_char(#[trigger] s@[i])),
    {
        let n = s.unicode_len();
        if n != 42 {
            return None;
        }
        if s.get_char(0) != '0' || s.get_char(1) != 'x' {
            return None;
        }
        let mut bytes: Vec<u8> = Vec::new();
        let mut i: usize = 2;
        while i < 42
            invariant
                2 <= i <= 42,
                i % 2 == 0,
                s@.len() == 42,
                bytes@.len() == (i - 2) / 2,
                forall|k: int| 2 <= k < i ==> is_hex_char(#[trigger] s@[k]),
                forall|k: int|
                    0 <= k < bytes@.len() ==> #[trigger] bytes@[k] == nibble_val(s@[2 * k + 2])
                        * 16 + nibble_val(s@[2 * k + 3]),
            decreases 42 - i,
        {
            let c1 = s.get_char(i);
            let c2 = s.get_char(i + 1);
            if !check_hex_char(c1) {
                proof {
                    assert(!is_hex_char(s@[i as int]));
                }
                return None;
            }
            if !check_hex_char(c2) {
                proof {
                    assert(!is_hex_char(s@[i + 1]));
                }
                return None;
            }
            bytes.push(nibble_of(c1) * 16 + nibble_of(c2));
            i = i + 2;
        }
        proof {
            assert(hex_decodes_to(s@.subrange(2, 42), bytes@));
        }
        Some(AccountAddress { bytes })
    }

    /// The `0x`-prefixed lowercase hex text of the address.
    pub fn to_text(&self) -> (r: String)
        ensures
            r@ == "0x"@ + hex_of(self@),
    {
        let mut r = String::new();
        r.append("0x");
        r.append(bytes_to_hex(&self.bytes).as_str());
        r
    }
}

/// Derives the account address of a public key: hash the 64 coordinate
/// bytes, keep the trailing 20 digest bytes.
pub fn public_key_address(public_key: &PublicPoint) -> (r: AccountAddress)
    requires
        public_key.wf(),
    ensures
        r@ == spec_address_of(public_key@),
        r.wf(),
{
    let pk = public_key.as_bytes();
    let mut coords: Vec<u8> = Vec::new();
    let mut i: usize = 1;
    while i < 65
        invariant
            1 <= i <= 65,
            pk@.len() == 65,
            pk@ == public_key@,
            coords@ =~= public_key@.subrange(1, i as int),
        decreases 65 - i,
    {
        coords.push(pk[i]);
        i = i + 1;
    }
    let digest = keccak256(&coords);
    let mut addr: Vec<u8> = Vec::new();
    let mut j: usize = 12;
    while j < 32
        invariant
            12 <= j <= 32,
            digest@.len() == 32,
            digest@ == keccak_of(public_key@.subrange(1, 65)),
            addr@ =~= digest@.subrange(12, j as int),
        decreases 32 - j,
    {
        addr.push(digest[j]);
        j = j + 1;
    }
    AccountAddress { bytes: addr }
}

/// Address derivation is deterministic: two derivations from one public
/// key give the same address.
pub proof fn lemma_address_derivation_deterministic(p: Seq<u8>, a1: Seq<u8>, a2: Seq<u8>)
    requires
        a1 == spec_address_of(p),
        a2 == spec_address_of(p),
    ensures
        a1 == a2,
{
}

} // verus!
