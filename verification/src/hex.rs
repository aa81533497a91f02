//! Lowercase hexadecimal text for byte strings.
//!
//! Every persisted field of a wallet record is hex text, so the codec and
//! its inversion facts are stated here once and reused by the record and
//! address modules.

use vstd::prelude::*;

verus! {

/// The lowercase hex digit for a nibble value.
pub open spec fn hex_digit(n: int) -> char {
    if n == 0 {
        '0'
    } else if n == 1 {
        '1'
    } else if n == 2 {
        '2'
    } else if n == 3 {
        '3'
    } else if n == 4 {
        '4'
    } else if n == 5 {
        '5'
    } else if n == 6 {
        '6'
    } else if n == 7 {
        '7'
    } else if n == 8 {
        '8'
    } else if n == 9 {
        '9'
    } else if n == 10 {
        'a'
    } else if n == 11 {
        'b'
    } else if n == 12 {
        'c'
    } else if n == 13 {
        'd'
    } else if n == 14 {
        'e'
    } else {
        'f'
    }
}

/// The nibble value of a hex digit, either case; 16 marks a non-hex char.
pub open spec fn nibble_val(c: char) -> int {
    if c == '0' {
        0
    } else if c == '1' {
        1
    } else if c == '2' {
        2
    } else if c == '3' {
        3
    } else if c == '4' {
        4
    } else if c == '5' {
        5
    } else if c == '6' {
        6
    } else if c == '7' {
        7
    } else if c == '8' {
        8
    } else if c == '9' {
        9
    } else if c == 'a' || c == 'A' {
        10
    } else if c == 'b' || c == 'B' {
        11
    } else if c == 'c' || c == 'C' {
        12
    } else if c == 'd' || c == 'D' {
        13
    } else if c == 'e' || c == 'E' {
        14
    } else if c == 'f' || c == 'F' {
        15
    } else {
        16
    }
}

/// A char that stands for a nibble, in either case.
pub open spec fn is_hex_char(c: char) -> bool {
    nibble_val(c) < 16
}

/// The lowercase hex text of a byte string: two digits per byte.
pub open spec fn hex_of(b: Seq<u8>) -> Seq<char> {
    Seq::new(
        2 * b.len(),
        |i: int|
            if i % 2 == 0 {
                hex_digit(b[i / 2] as int / 16)
            } else {
                hex_digit(b[i / 2] as int % 16)
            },
    )
}

/// Hex text `s` decodes to exactly the bytes `b`.
pub open spec fn hex_decodes_to(s: Seq<char>, b: Seq<u8>) -> bool {
    &&& s.len() == 2 * b.len()
    &&& forall|i: int| 0 <= i < s.len() ==> is_hex_char(#[trigger] s[i])
    &&& forall|i: int|
        0 <= i < b.len() ==> #[trigger] b[i] == nibble_val(s[2 * i]) * 16 + nibble_val(
            s[2 * i + 1],
        )
}

/// Decoding a digit the encoder wrote gives the nibble back.
pub proof fn lemma_nibble_round_trip(n: int)
    requires
        0 <= n < 16,
    ensures
        nibble_val(hex_digit(n)) == n,
{
}

/// The encoder's output decodes to the bytes it was given.
pub proof fn lemma_hex_of_decodes(b: Seq<u8>)
    ensures
        hex_decodes_to(hex_of(b), b),
{
    assert forall|i: int| 0 <= i < hex_of(b).len() implies is_hex_char(#[trigger] hex_of(b)[i]) by {
        if i % 2 == 0 {
            lemma_nibble_round_trip(b[i / 2] as int / 16);
        } else {
            lemma_nibble_round_trip(b[i / 2] as int % 16);
        }
    }
    assert forall|i: int| 0 <= i < b.len() implies #[trigger] b[i] == nibble_val(hex_of(b)[2 * i])
        * 16 + nibble_val(hex_of(b)[2 * i + 1]) by {
        lemma_nibble_round_trip(b[i] as int / 16);
        lemma_nibble_round_trip(b[i] as int % 16);
    }
}

/// A hex text decodes to at most one byte string.
pub proof fn lemma_hex_decode_unique(s: Seq<char>, b1: Seq<u8>, b2: Seq<u8>)
    requires
        hex_decodes_to(s, b1),
        hex_decodes_to(s, b2),
    ensures
        b1 == b2,
{
    assert(b1 =~= b2);
}

/// Hex text round trip: whatever decodes from the text the encoder wrote
/// for `b` is `b` itself.
pub proof fn lemma_hex_text_round_trip(b: Seq<u8>, k: Seq<u8>)
    requires
        hex_decodes_to(hex_of(b), k),
    ensures
        k == b,
{
    lemma_hex_of_decodes(b);
    lemma_hex_decode_unique(hex_of(b), k, b);
}

/// Every char the encoder writes is a hex digit.
pub proof fn lemma_hex_of_is_hex(b: Seq<u8>)
    ensures
        forall|i: int| 0 <= i < hex_of(b).len() ==> is_hex_char(#[trigger] hex_of(b)[i]),
{
    lemma_hex_of_decodes(b);
}

/// The one-char string for a nibble value.
fn hex_digit_str(n: u8) -> (r: &'static str)
    requires
        n < 16,
    ensures
        r@ =~= seq![hex_digit(n as int)],
{
    proof {
        reveal_strlit("0");
        reveal_strlit("1");
        reveal_strlit("2");
        reveal_strlit("3");
        reveal_strlit("4");
        reveal_strlit("5");
        reveal_strlit("6");
        reveal_strlit("7");
        reveal_strlit("8");
        reveal_strlit("9");
        reveal_strlit("a");
        reveal_strlit("b");
        reveal_strlit("c");
        reveal_strlit("d");
        reveal_strlit("e");
        reveal_strlit("f");
    }
    match n {
        0 => "0",
        1 => "1",
        2 => "2",
        3 => "3",
        4 => "4",
        5 => "5",
        6 => "6",
        7 => "7",
        8 => "8",
        9 => "9",
        10 => "a",
        11 => "b",
        12 => "c",
        13 => "d",
        14 => "e",
        _ => "f",
    }
}

/// Encodes a byte string as lowercase hex text.
pub fn bytes_to_hex(b: &Vec<u8>) -> (r: String)
    ensures
        r@ == hex_of(b@),
{
    let mut r = String::new();
    let mut i: usize = 0;
    while i < b.len()
        invariant
            i <= b.len(),
            r@ =~= hex_of(b@.take(i as int)),
        decreases b.len() - i,
    {
        let byte = b[i];
        r.append(hex_digit_str(byte / 16));
        r.append(hex_digit_str(byte % 16));
        proof {
            assert(r@ =~= hex_of(b@.take(i + 1)));
        }
        i = i + 1;
    }
    proof {
        assert(b@.take(b@.len() as int) =~= b@);
    }
    r
}

/// The nibble value of a hex digit char.
pub fn nibble_of(c: char) -> (r: u8)
    requires
        is_hex_char(c),
    ensures
        r as int == nibble_val(c),
{
    match c {
        '0' => 0,
        '1' => 1,
        '2' => 2,
        '3' => 3,
        '4' => 4,
        '5' => 5,
        '6' => 6,
        '7' => 7,
        '8' => 8,
        '9' => 9,
        'a' | 'A' => 10,
        'b' | 'B' => 11,
        'c' | 'C' => 12,
        'd' | 'D' => 13,
        'e' | 'E' => 14,
        _ => 15,
    }
}

/// Decides whether a char is a hex digit, in either case.
pub fn check_hex_char(c: char) -> (r: bool)
    ensures
        r == is_hex_char(c),
{
    match c {
        '0' | '1' | '2' | '3' | '4' | '5' | '6' | '7' | '8' | '9' => true,
        'a' | 'b' | 'c' | 'd' | 'e' | 'f' => true,
        'A' | 'B' | 'C' | 'D' | 'E' | 'F' => true,
        _ => false,
    }
}

} // verus!
