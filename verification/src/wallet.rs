//! The wallet record: one account's identity as persistable text.
//!
//! A record holds three redundant text encodings of one keypair: the
//! secret scalar as 64 hex digits, the public point as its 66-digit
//! compressed hex, and the account address as `0x` and 40 hex digits.
//! The record is persisted as one JSON object.  The writer emits one
//! canonical text; the reader accepts the object with any key order and
//! any insignificant whitespace, and rejects everything else.  Both
//! directions are verified, with a proved round trip.

use vstd::prelude::*;

use crate::WalletError;
use crate::address::{addr_text_of, public_key_address, spec_compress};
use crate::hex::{bytes_to_hex, check_hex_char, hex_decodes_to, hex_of, is_hex_char,
    lemma_hex_of_is_hex, lemma_hex_text_round_trip};
use crate::keys::{PublicPoint, SecretScalar, be_bytes_val, curve_order, parse_public_key,
    parse_secret_key, point_from_text, point_text_ok, pubkey_bytes_of, scalar_text_ok};

verus! {

/// The opening of the canonical record text, through the secret key's
/// first quote.
pub open spec fn lit_open() -> Seq<char> {
    "{\"secret_key\":\""@
}

/// The canonical text between the secret-key and public-key fields.
pub open spec fn lit_pk() -> Seq<char> {
    "\",\"public_key\":\""@
}

/// The canonical text between the public-key and address fields.
pub open spec fn lit_addr() -> Seq<char> {
    "\",\"public_address\":\""@
}

/// The closing of the canonical record text.
pub open spec fn lit_close() -> Seq<char> {
    "\"}"@
}

/// The canonical record text for the three stored fields.
pub open spec fn json_encode(sk: Seq<char>, pk: Seq<char>, ad: Seq<char>) -> Seq<char> {
    lit_open() + sk + lit_pk() + pk + lit_addr() + ad + lit_close()
}

/// Well-formed secret-key text: 64 hex digits.
pub open spec fn secret_text_wf(s: Seq<char>) -> bool {
    s.len() == 64 && forall|i: int| 0 <= i < s.len() ==> is_hex_char(#[trigger] s[i])
}

/// Well-formed public-key text: 66 hex digits (compressed encoding).
pub open spec fn public_text_wf(s: Seq<char>) -> bool {
    s.len() == 66 && forall|i: int| 0 <= i < s.len() ==> is_hex_char(#[trigger] s[i])
}

/// Well-formed address text: `0x`, then 40 hex digits.
pub open spec fn address_text_wf(s: Seq<char>) -> bool {
    s.len() == 42 && s[0] == '0' && s[1] == 'x' && forall|i: int|
        2 <= i < s.len() ==> is_hex_char(#[trigger] s[i])
}

/// Well-formed field triple of a record.
pub open spec fn fields_wf(sk: Seq<char>, pk: Seq<char>, ad: Seq<char>) -> bool {
    secret_text_wf(sk) && public_text_wf(pk) && address_text_wf(ad)
}

/// JSON insignificant whitespace.
pub open spec fn is_ws(c: char) -> bool {
    c == ' ' || c == '\t' || c == '\n' || c == '\r'
}

/// The first position at or after `i` that holds no whitespace.
pub open spec fn skip_ws(s: Seq<char>, i: int) -> int
    decreases s.len() - i when i <= s.len()
{
    if 0 <= i < s.len() && is_ws(s[i]) {
        skip_ws(s, i + 1)
    } else {
        i
    }
}

/// The first position at or after `i` that holds a double quote, or the
/// text's end.
pub open spec fn scan_quote(s: Seq<char>, i: int) -> int
    decreases s.len() - i when i <= s.len()
{
    if 0 <= i < s.len() {
        if s[i] == '"' {
            i
        } else {
            scan_quote(s, i + 1)
        }
    } else {
        i
    }
}

/// One `"key" : "value"` member starting at `i`: its key, its value and
/// the position after the value's closing quote.  Keys and values run to
/// the next quote; escapes are not part of the record grammar.
pub open spec fn parse_member(s: Seq<char>, i: int) -> Option<(Seq<char>, Seq<char>, int)> {
    let i1 = skip_ws(s, i);
    if !(i1 < s.len() && s[i1] == '"') {
        None
    } else {
        let k2 = scan_quote(s, i1 + 1);
        if !(k2 < s.len()) {
            None
        } else {
            let i3 = skip_ws(s, k2 + 1);
            if !(i3 < s.len() && s[i3] == ':') {
                None
            } else {
                let i4 = skip_ws(s, i3 + 1);
                if !(i4 < s.len() && s[i4] == '"') {
                    None
                } else {
                    let v2 = scan_quote(s, i4 + 1);
                    if !(v2 < s.len()) {
                        None
                    } else {
                        Some((s.subrange(i1 + 1, k2), s.subrange(i4 + 1, v2), v2 + 1))
                    }
                }
            }
        }
    }
}

/// The secret-key field name.
pub open spec fn key_secret() -> Seq<char> {
    "secret_key"@
}

/// The public-key field name.
pub open spec fn key_public() -> Seq<char> {
    "public_key"@
}

/// The address field name.
pub open spec fn key_address() -> Seq<char> {
    "public_address"@
}

/// Assigns three parsed members to the record's fields: the keys must be
/// exactly the three field names, in any order.
pub open spec fn assign_fields(
    m1: (Seq<char>, Seq<char>),
    m2: (Seq<char>, Seq<char>),
    m3: (Seq<char>, Seq<char>),
) -> Option<(Seq<char>, Seq<char>, Seq<char>)> {
    if m1.0 == key_secret() && m2.0 == key_public() && m3.0 == key_address() {
        Some((m1.1, m2.1, m3.1))
    } else if m1.0 == key_secret() && m2.0 == key_address() && m3.0 == key_public() {
        Some((m1.1, m3.1, m2.1))
    } else if m1.0 == key_public() && m2.0 == key_secret() && m3.0 == key_address() {
        Some((m2.1, m1.1, m3.1))
    } else if m1.0 == key_public() && m2.0 == key_address() && m3.0 == key_secret() {
        Some((m3.1, m1.1, m2.1))
    } else if m1.0 == key_address() && m2.0 == key_secret() && m3.0 == key_public() {
        Some((m2.1, m3.1, m1.1))
    } else if m1.0 == key_address() && m2.0 == key_public() && m3.0 == key_secret() {
        Some((m3.1, m2.1, m1.1))
    } else {
        None
    }
}

/// What a record text means: the field triple of the three-member JSON
/// object it spells, whatever the key order and whitespace; `None` for
/// every other text.
pub open spec fn json_decode(s: Seq<char>) -> Option<(Seq<char>, Seq<char>, Seq<char>)> {
    let i0 = skip_ws(s, 0);
    if !(i0 < s.len() && s[i0] == '{') {
        None
    } else {
        match parse_member(s, i0 + 1) {
            None => None,
            Some(m1) => {
                let j1 = skip_ws(s, m1.2);
                if !(j1 < s.len() && s[j1] == ',') {
                    None
                } else {
                    match parse_member(s, j1 + 1) {
                        None => None,
                        Some(m2) => {
                            let j2 = skip_ws(s, m2.2);
                            if !(j2 < s.len() && s[j2] == ',') {
                                None
                            } else {
                                match parse_member(s, j2 + 1) {
                                    None => None,
                                    Some(m3) => {
                                        let j3 = skip_ws(s, m3.2);
                                        if !(j3 < s.len() && s[j3] == '}') {
                                            None
                                        } else if skip_ws(s, j3 + 1) != s.len() {
                                            None
                                        } else {
                                            assign_fields(
                                                (m1.0, m1.1),
                                                (m2.0, m2.1),
                                                (m3.0, m3.1),
                                            )
                                        }
                                    },
                                }
                            }
                        },
                    }
                }
            },
        }
    }
}

/// One account's persistable identity.
pub struct Wallet {
    /// The secret scalar, as 64 hex digits.
    pub secret_key: String,
    /// The public point, as 66 hex digits of its compressed encoding.
    pub public_key: String,
    /// The account address, as `0x` and 40 hex digits.
    pub public_address: String,
}

impl Wallet {
    /// All three stored fields have their canonical shapes.
    pub open spec fn text_wf(&self) -> bool {
        fields_wf(self.secret_key@, self.public_key@, self.public_address@)
    }
}

/// The shape every canonically encoded record has: its length and what
/// stands in each of its seven segments.
proof fn lemma_encode_shape(sk: Seq<char>, pk: Seq<char>, ad: Seq<char>)
    requires
        fields_wf(sk, pk, ad),
    ensures
        lit_open().len() == 15,
        lit_pk().len() == 16,
        lit_addr().len() == 20,
        lit_close().len() == 2,
        json_encode(sk, pk, ad).len() == 225,
        json_encode(sk, pk, ad).subrange(0, 15) == lit_open(),
        json_encode(sk, pk, ad).subrange(15, 79) == sk,
        json_encode(sk, pk, ad).subrange(79, 95) == lit_pk(),
        json_encode(sk, pk, ad).subrange(95, 161) == pk,
        json_encode(sk, pk, ad).subrange(161, 181) == lit_addr(),
        json_encode(sk, pk, ad).subrange(181, 223) == ad,
        json_encode(sk, pk, ad).subrange(223, 225) == lit_close(),
{
    reveal_strlit("{\"secret_key\":\"");
    reveal_strlit("\",\"public_key\":\"");
    reveal_strlit("\",\"public_address\":\"");
    reveal_strlit("\"}");
    let s = json_encode(sk, pk, ad);
    assert(s.len() == 225);
    assert(s.subrange(0, 15) =~= lit_open());
    assert(s.subrange(15, 79) =~= sk);
    assert(s.subrange(79, 95) =~= lit_pk());
    assert(s.subrange(95, 161) =~= pk);
    assert(s.subrange(161, 181) =~= lit_addr());
    assert(s.subrange(181, 223) =~= ad);
    assert(s.subrange(223, 225) =~= lit_close());
}

/// Scanning from `i` stops at `j` when no quote stands between.
proof fn lemma_scan_quote_at(s: Seq<char>, i: int, j: int)
    requires
        0 <= i <= j < s.len(),
        forall|k: int| i <= k < j ==> s[k] != '"',
        s[j] == '"',
    ensures
        scan_quote(s, i) == j,
    decreases j - i,
{
    if i < j {
        lemma_scan_quote_at(s, i + 1, j);
    }
}

/// Round trip of persistence: the canonical encoding of any well-formed
/// record decodes to exactly that record's fields.
pub proof fn lemma_record_round_trip(sk: Seq<char>, pk: Seq<char>, ad: Seq<char>)
    requires
        fields_wf(sk, pk, ad),
    ensures
        json_decode(json_encode(sk, pk, ad)) == Some((sk, pk, ad)),
{
    lemma_encode_shape(sk, pk, ad);
    reveal_strlit("{\"secret_key\":\"");
    reveal_strlit("\",\"public_key\":\"");
    reveal_strlit("\",\"public_address\":\"");
    reveal_strlit("\"}");
    reveal_strlit("secret_key");
    reveal_strlit("public_key");
    reveal_strlit("public_address");
    let s = json_encode(sk, pk, ad);
    assert(forall|k: int| 0 <= k < 15 ==> s[k] == lit_open()[k]);
    assert(forall|k: int| 15 <= k < 79 ==> s[k] == sk[k - 15]);
    assert(forall|k: int| 79 <= k < 95 ==> s[k] == lit_pk()[k - 79]);
    assert(forall|k: int| 95 <= k < 161 ==> s[k] == pk[k - 95]);
    assert(forall|k: int| 161 <= k < 181 ==> s[k] == lit_addr()[k - 161]);
    assert(forall|k: int| 181 <= k < 223 ==> s[k] == ad[k - 181]);
    assert(forall|k: int| 223 <= k < 225 ==> s[k] == lit_close()[k - 223]);
    // No quote stands inside a key or a hex-shaped field.
    assert forall|k: int| 15 <= k < 79 implies s[k] != '"' by {
        if s[k] == '"' {
            assert(is_hex_char('"'));
        }
    }
    assert forall|k: int| 95 <= k < 161 implies s[k] != '"' by {
        if s[k] == '"' {
            assert(is_hex_char('"'));
        }
    }
    assert forall|k: int| 181 <= k < 223 implies s[k] != '"' by {
        if k >= 183 && s[k] == '"' {
            assert(is_hex_char('"'));
        }
    }
    // Walk the parse of the canonical text, member by member.
    assert(skip_ws(s, 0) == 0);
    assert(skip_ws(s, 1) == 1);
    lemma_scan_quote_at(s, 2, 12);
    assert(skip_ws(s, 13) == 13);
    assert(skip_ws(s, 14) == 14);
    lemma_scan_quote_at(s, 15, 79);
    assert(s.subrange(2, 12) =~= key_secret());
    assert(s.subrange(15, 79) == sk);
    assert(parse_member(s, 1) == Some((key_secret(), sk, 80int)));
    assert(skip_ws(s, 80) == 80);
    assert(skip_ws(s, 81) == 81);
    lemma_scan_quote_at(s, 82, 92);
    assert(skip_ws(s, 93) == 93);
    assert(skip_ws(s, 94) == 94);
    lemma_scan_quote_at(s, 95, 161);
    assert(s.subrange(82, 92) =~= key_public());
    assert(s.subrange(95, 161) == pk);
    assert(parse_member(s, 81) == Some((key_public(), pk, 162int)));
    assert(skip_ws(s, 162) == 162);
    assert(skip_ws(s, 163) == 163);
    lemma_scan_quote_at(s, 164, 178);
    assert(skip_ws(s, 179) == 179);
    assert(skip_ws(s, 180) == 180);
    lemma_scan_quote_at(s, 181, 223);
    assert(s.subrange(164, 178) =~= key_address());
    assert(s.subrange(181, 223) == ad);
    assert(parse_member(s, 163) == Some((key_address(), ad, 224int)));
    assert(skip_ws(s, 224) == 224);
    assert(skip_ws(s, 225) == 225);
    assert(json_decode(s) == Some((sk, pk, ad)));
}

/// Keypair consistency: in a record whose stored public-key text is the
/// compressed hex of a point that parses back to itself, re-deriving the
/// address from the stored public key reproduces the stored address text.
pub proof fn lemma_keypair_consistency(p: Seq<u8>, w: Wallet)
    requires
        point_from_text(hex_of(spec_compress(p))) == p,
        w.public_key@ == hex_of(spec_compress(p)),
        w.public_address@ == addr_text_of(p),
    ensures
        addr_text_of(point_from_text(w.public_key@)) == w.public_address@,
{
}

/// Keypair consistency, secret-key side: any scalar decoded back from a
/// record's stored secret-key text reproduces the record's stored
/// public-key text through the curve's derivation.
pub proof fn lemma_stored_secret_reproduces_point(sk: Seq<u8>, k: Seq<u8>, w: Wallet)
    requires
        w.secret_key@ == hex_of(sk),
        hex_decodes_to(w.secret_key@, k),
        w.public_key@ == hex_of(spec_compress(pubkey_bytes_of(sk))),
    ensures
        hex_of(spec_compress(pubkey_bytes_of(k))) == w.public_key@,
{
    lemma_hex_text_round_trip(sk, k);
}

impl Wallet {
    /// Builds the record for a keypair: stores the scalar's hex text, the
    /// point's compressed hex text, and the derived address text.
    pub fn new(secret_key: &SecretScalar, public_key: &PublicPoint) -> (w: Wallet)
        requires
            secret_key.wf(),
            public_key.wf(),
        ensures
            w.secret_key@ == hex_of(secret_key@),
            w.public_key@ == hex_of(spec_compress(public_key@)),
            w.public_address@ == addr_text_of(public_key@),
            w.text_wf(),
    {
        let addr = public_key_address(public_key);
        let pkb = public_key.as_bytes();
        let mut comp: Vec<u8> = Vec::new();
        comp.push(if pkb[64] % 2 == 0 { 2 } else { 3 });
        let mut i: usize = 1;
        while i < 33
            invariant
                1 <= i <= 33,
                pkb@.len() == 65,
                pkb@ == public_key@,
                comp@ =~= spec_compress(public_key@).take(i as int),
            decreases 33 - i,
        {
            comp.push(pkb[i]);
            proof {
                assert(comp@ =~= spec_compress(public_key@).take(i + 1));
            }
            i = i + 1;
        }
        proof {
            assert(comp@ =~= spec_compress(public_key@));
        }
        let w = Wallet {
            secret_key: bytes_to_hex(secret_key.as_bytes()),
            public_key: bytes_to_hex(&comp),
            public_address: addr.to_text(),
        };
        proof {
            lemma_hex_of_is_hex(secret_key@);
            lemma_hex_of_is_hex(spec_compress(public_key@));
            lemma_hex_of_is_hex(addr@);
            reveal_strlit("0x");
            assert(address_text_wf(w.public_address@));
        }
        w
    }

    /// Serializes the record as its canonical JSON text.
    pub fn to_json(&self) -> (r: String)
        ensures
            r@ == json_encode(self.secret_key@, self.public_key@, self.public_address@),
    {
        let mut r = String::new();
        r.append("{\"secret_key\":\"");
        r.append(self.secret_key.as_str());
        r.append("\",\"public_key\":\"");
        r.append(self.public_key.as_str());
        r.append("\",\"public_address\":\"");
        r.append(self.public_address.as_str());
        r.append("\"}");
        proof {
            assert(r@ =~= json_encode(self.secret_key@, self.public_key@, self.public_address@));
        }
        r
    }

    /// Decodes the string-encoded secret key back into scalar bytes.
    /// Succeeds exactly when the stored text is a valid scalar encoding.
    pub fn get_secret_key(&self) -> (r: Result<SecretScalar, WalletError>)
        ensures
            r is Ok <==> scalar_text_ok(self.secret_key@),
            r matches Ok(k) ==> (k.wf() && hex_decodes_to(self.secret_key@, k@) && 1
                <= be_bytes_val(k@) < curve_order()),
            r matches Err(e) ==> e == WalletError::InvalidSecretKeyText,
            self.secret_key@.len() != 64 ==> r is Err,
    {
        match parse_secret_key(self.secret_key.as_str()) {
            Some(k) => Ok(k),
            None => Err(WalletError::InvalidSecretKeyText),
        }
    }

    /// Decodes the string-encoded public key back into its uncompressed
    /// point encoding.  Succeeds exactly when the stored text is a valid
    /// point encoding.
    pub fn get_public_key(&self) -> (r: Result<PublicPoint, WalletError>)
        ensures
            r is Ok <==> point_text_ok(self.public_key@),
            r matches Ok(p) ==> (p.wf() && p@ == point_from_text(self.public_key@)),
            r matches Err(e) ==> e == WalletError::InvalidPublicKeyText,
            self.public_key@.len() != 66 && self.public_key@.len() != 130 ==> r is Err,
    {
        match parse_public_key(self.public_key.as_str()) {
            Some(p) => Ok(p),
            None => Err(WalletError::InvalidPublicKeyText),
        }
    }
}

/// Compares a segment of `s` against a literal, char for char.
fn check_lit(s: &str, start: usize, lit: &str) -> (r: bool)
    requires
        start + lit@.len() <= s@.len(),
        s@.len() <= usize::MAX,
    ensures
        r == (s@.subrange(start as int, start + lit@.len()) == lit@),
{
    let n = lit.unicode_len();
    let mut j: usize = 0;
    while j < n
        invariant
            j <= n,
            n == lit@.len(),
            start + n <= s@.len() <= usize::MAX,
            forall|k: int| 0 <= k < j ==> s@[start + k] == lit@[k],
        decreases n - j,
    {
        if s.get_char(start + j) != lit.get_char(j) {
            proof {
                assert(s@.subrange(start as int, start + lit@.len())[j as int] != lit@[j as int]);
            }
            return false;
        }
        j = j + 1;
    }
    proof {
        assert(s@.subrange(start as int, start + lit@.len()) =~= lit@);
    }
    true
}

/// Decides whether two texts spell the same chars.
fn text_eq(a: &str, b: &str) -> (r: bool)
    ensures
        r == (a@ == b@),
{
    let na = a.unicode_len();
    let nb = b.unicode_len();
    if na != nb {
        return false;
    }
    let r = check_lit(a, 0, b);
    proof {
        assert(a@.subrange(0, b@.len() as int) =~= a@);
    }
    r
}

/// Decides whether every char in `s[from..to)` is a hex digit.
fn check_hex_range(s: &str, from: usize, to: usize) -> (r: bool)
    requires
        from <= to <= s@.len(),
        s@.len() <= usize::MAX,
    ensures
        r == (forall|k: int| from <= k < to ==> is_hex_char(#[trigger] s@[k])),
{
    let mut i: usize = from;
    while i < to
        invariant
            from <= i <= to <= s@.len(),
            forall|k: int| from <= k < i ==> is_hex_char(#[trigger] s@[k]),
        decreases to - i,
    {
        if !check_hex_char(s.get_char(i)) {
            proof {
                assert(!is_hex_char(s@[i as int]));
            }
            return false;
        }
        i = i + 1;
    }
    true
}

/// Whitespace test for one char of the text.
fn ws_at(s: &str, j: usize) -> (r: bool)
    requires
        j < s@.len(),
    ensures
        r == is_ws(s@[j as int]),
{
    let c = s.get_char(j);
    c == ' ' || c == '\t' || c == '\n' || c == '\r'
}

/// Advances past whitespace.
fn skip_ws_exec(s: &str, i: usize) -> (r: usize)
    requires
        i <= s@.len(),
        s@.len() <= usize::MAX,
    ensures
        r == skip_ws(s@, i as int),
        i <= r <= s@.len(),
{
    let n = s.unicode_len();
    let mut j: usize = i;
    while j < n && ws_at(s, j)
        invariant
            i <= j <= n,
            n == s@.len(),
            skip_ws(s@, i as int) == skip_ws(s@, j as int),
        decreases n - j,
    {
        proof {
            assert(skip_ws(s@, j as int) == skip_ws(s@, j + 1));
        }
        j = j + 1;
    }
    proof {
        assert(skip_ws(s@, j as int) == j);
    }
    j
}

/// Advances to the next double quote, or the text's end.
fn scan_quote_exec(s: &str, i: usize) -> (r: usize)
    requires
        i <= s@.len(),
        s@.len() <= usize::MAX,
    ensures
        r == scan_quote(s@, i as int),
        i <= r <= s@.len(),
{
    let n = s.unicode_len();
    let mut j: usize = i;
    while j < n && s.get_char(j) != '"'
        invariant
            i <= j <= n,
            n == s@.len(),
            scan_quote(s@, i as int) == scan_quote(s@, j as int),
        decreases n - j,
    {
        proof {
            assert(scan_quote(s@, j as int) == scan_quote(s@, j + 1));
        }
        j = j + 1;
    }
    proof {
        assert(scan_quote(s@, j as int) == j);
    }
    j
}

/// Parses one `"key" : "value"` member starting at `i`.
fn parse_member_exec(s: &str, i: usize) -> (r: Option<(String, String, usize)>)
    requires
        i <= s@.len(),
        s@.len() <= usize::MAX,
    ensures
        r matches Some(m) ==> (parse_member(s@, i as int) == Some((m.0@, m.1@, m.2 as int))
            && m.2 <= s@.len()),
        r is None ==> parse_member(s@, i as int) is None,
{
    let n = s.unicode_len();
    let i1 = skip_ws_exec(s, i);
    if !(i1 < n && s.get_char(i1) == '"') {
        return None;
    }
    let k2 = scan_quote_exec(s, i1 + 1);
    if k2 >= n {
        return None;
    }
    let i3 = skip_ws_exec(s, k2 + 1);
    if !(i3 < n && s.get_char(i3) == ':') {
        return None;
    }
    let i4 = skip_ws_exec(s, i3 + 1);
    if !(i4 < n && s.get_char(i4) == '"') {
        return None;
    }
    let v2 = scan_quote_exec(s, i4 + 1);
    if v2 >= n {
        return None;
    }
    let key = s.substring_char(i1 + 1, k2).to_owned();
    let value = s.substring_char(i4 + 1, v2).to_owned();
    Some((key, value, v2 + 1))
}

/// Whether the char at `j` differs from `c`.
fn char_ne_at(s: &str, j: usize, c: char) -> (r: bool)
    requires
        j < s@.len(),
    ensures
        r == (s@[j as int] != c),
{
    s.get_char(j) != c
}

impl Wallet {
    /// Parses a persisted record text.  Accepts the record's JSON object
    /// with any key order and whitespace, validates the three field
    /// shapes, and rejects every other text as malformed.
    pub fn from_json(s: &str) -> (r: Result<Wallet, WalletError>)
        ensures
            r matches Ok(w) ==> (w.text_wf() && json_decode(s@) == Some(
                (w.secret_key@, w.public_key@, w.public_address@),
            )),
            r matches Err(e) ==> (e == WalletError::MalformedRecord && (json_decode(s@)
                matches Some(t) ==> !fields_wf(t.0, t.1, t.2))),
    {
        let n = s.unicode_len();
        let i0 = skip_ws_exec(s, 0);
        if !(i0 < n && char_ne_at(s, i0, '{') == false) {
            return Err(WalletError::MalformedRecord);
        }
        let m1 = match parse_member_exec(s, i0 + 1) {
            Some(m) => m,
            None => {
                return Err(WalletError::MalformedRecord);
            },
        };
        let j1 = skip_ws_exec(s, m1.2);
        if !(j1 < n && char_ne_at(s, j1, ',') == false) {
            return Err(WalletError::MalformedRecord);
        }
        let m2 = match parse_member_exec(s, j1 + 1) {
            Some(m) => m,
            None => {
                return Err(WalletError::MalformedRecord);
            },
        };
        let j2 = skip_ws_exec(s, m2.2);
        if !(j2 < n && char_ne_at(s, j2, ',') == false) {
            return Err(WalletError::MalformedRecord);
        }
        let m3 = match parse_member_exec(s, j2 + 1) {
            Some(m) => m,
            None => {
                return Err(WalletError::MalformedRecord);
            },
        };
        let j3 = skip_ws_exec(s, m3.2);
        if !(j3 < n && char_ne_at(s, j3, '}') == false) {
            return Err(WalletError::MalformedRecord);
        }
        if skip_ws_exec(s, j3 + 1) != n {
            return Err(WalletError::MalformedRecord);
        }
        let (k1, v1, _n1) = m1;
        let (k2, v2, _n2) = m2;
        let (k3, v3, _n3) = m3;
        let k1s = text_eq(k1.as_str(), "secret_key");
        let k1p = text_eq(k1.as_str(), "public_key");
        let k1a = text_eq(k1.as_str(), "public_address");
        let k2s = text_eq(k2.as_str(), "secret_key");
        let k2p = text_eq(k2.as_str(), "public_key");
        let k2a = text_eq(k2.as_str(), "public_address");
        let k3s = text_eq(k3.as_str(), "secret_key");
        let k3p = text_eq(k3.as_str(), "public_key");
        let k3a = text_eq(k3.as_str(), "public_address");
        let w: Wallet = if k1s && k2p && k3a {
            Wallet { secret_key: v1, public_key: v2, public_address: v3 }
        } else if k1s && k2a && k3p {
            Wallet { secret_key: v1, public_key: v3, public_address: v2 }
        } else if k1p && k2s && k3a {
            Wallet { secret_key: v2, public_key: v1, public_address: v3 }
        } else if k1p && k2a && k3s {
            Wallet { secret_key: v3, public_key: v1, public_address: v2 }
        } else if k1a && k2s && k3p {
            Wallet { secret_key: v2, public_key: v3, public_address: v1 }
        } else if k1a && k2p && k3s {
            Wallet { secret_key: v3, public_key: v2, public_address: v1 }
        } else {
            return Err(WalletError::MalformedRecord);
        };
        proof {
            assert(json_decode(s@) == Some((w.secret_key@, w.public_key@, w.public_address@)));
        }
        if w.secret_key.as_str().unicode_len() != 64 {
            return Err(WalletError::MalformedRecord);
        }
        if !check_hex_range(w.secret_key.as_str(), 0, 64) {
            return Err(WalletError::MalformedRecord);
        }
        if w.public_key.as_str().unicode_len() != 66 {
            return Err(WalletError::MalformedRecord);
        }
        if !check_hex_range(w.public_key.as_str(), 0, 66) {
            return Err(WalletError::MalformedRecord);
        }
        if w.public_address.as_str().unicode_len() != 42 {
            return Err(WalletError::MalformedRecord);
        }
        if char_ne_at(w.public_address.as_str(), 0, '0') || char_ne_at(
            w.public_address.as_str(),
            1,
            'x',
        ) {
            return Err(WalletError::MalformedRecord);
        }
        if !check_hex_range(w.public_address.as_str(), 2, 42) {
            return Err(WalletError::MalformedRecord);
        }
        Ok(w)
    }
}

} // verus!
