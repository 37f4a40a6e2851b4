//! Hexadecimal encoding of byte strings: an exact specification, trusted
//! wrappers over the `hex` crate, and the round-trip law.

use vstd::prelude::*;

verus! {

broadcast use vstd::seq::group_seq_axioms;

/// True for the characters `0`-`9`, `a`-`f` and `A`-`F`.
pub open spec fn is_hex_digit(c: char) -> bool {
    ('0' as u32 <= c as u32 && c as u32 <= '9' as u32) || ('a' as u32 <= c as u32 && c as u32
        <= 'f' as u32) || ('A' as u32 <= c as u32 && c as u32 <= 'F' as u32)
}

/// Numeric value of one hex digit.
pub open spec fn hex_digit_value(c: char) -> u8
    recommends
        is_hex_digit(c),
{
    if '0' as u32 <= c as u32 && c as u32 <= '9' as u32 {
        (c as u32 - '0' as u32) as u8
    } else if 'a' as u32 <= c as u32 && c as u32 <= 'f' as u32 {
        (c as u32 - 'a' as u32 + 10) as u8
    } else {
        (c as u32 - 'A' as u32 + 10) as u8
    }
}

/// A well-formed hex string: even length, hex digits only.
pub open spec fn hex_valid(s: Seq<char>) -> bool {
    s.len() % 2 == 0 && (forall|i: int| 0 <= i < s.len() ==> is_hex_digit(#[trigger] s[i]))
}

/// The bytes a well-formed hex string denotes: each pair of digits is one
/// byte, high nibble first.
pub open spec fn hex_bytes_of(s: Seq<char>) -> Seq<u8>
    recommends
        hex_valid(s),
{
    Seq::new((s.len() / 2) as nat, |i: int| (hex_digit_value(s[2 * i]) * 16 + hex_digit_value(s[2 * i + 1])) as u8)
}

/// The lowercase digit character of one nibble.
pub open spec fn nibble_char(n: u8) -> char
    recommends
        n < 16,
{
    if n < 10 {
        ((n + ('0' as u8)) as u8) as char
    } else {
        ((n - 10 + ('a' as u8)) as u8) as char
    }
}

/// The lowercase hex encoding of a byte string: two digits per byte, high
/// nibble first.
pub open spec fn hex_of(b: Seq<u8>) -> Seq<char> {
    Seq::new(
        (2 * b.len()) as nat,
        |i: int|
            if i % 2 == 0 {
                nibble_char(b[i / 2] / 16)
            } else {
                nibble_char(b[i / 2] % 16)
            },
    )
}

/// Each nibble's digit character is a hex digit and denotes that nibble.
pub proof fn lemma_nibble_char_value(n: u8)
    requires
        n < 16,
    ensures
        is_hex_digit(nibble_char(n)),
        hex_digit_value(nibble_char(n)) == n,
{
    assert(('0' as u8) as u32 == '0' as u32);
    assert(('a' as u8) as u32 == 'a' as u32);
    if n < 10 {
        assert(((n + ('0' as u8)) as u8) as char as u32 == n + '0' as u32);
    } else {
        assert(((n - 10 + ('a' as u8)) as u8) as char as u32 == n - 10 + 'a' as u32);
    }
}

/// Law: hex encoding round-trips — the encoding of any byte string is a
/// well-formed hex string of twice the length, and decoding it yields the
/// original bytes.
pub proof fn lemma_hex_round_trip(b: Seq<u8>)
    ensures
        hex_valid(hex_of(b)),
        hex_of(b).len() == 2 * b.len(),
        hex_bytes_of(hex_of(b)) == b,
{
    let h = hex_of(b);
    assert forall|i: int| 0 <= i < h.len() implies is_hex_digit(#[trigger] h[i]) by {
        if i % 2 == 0 {
            lemma_nibble_char_value(b[i / 2] / 16);
        } else {
            lemma_nibble_char_value(b[i / 2] % 16);
        }
    }
    assert forall|i: int| 0 <= i < b.len() implies #[trigger] hex_bytes_of(h)[i] == b[i] by {
        assert(h[2 * i] == nibble_char(b[i] / 16));
        assert(h[2 * i + 1] == nibble_char(b[i] % 16));
        lemma_nibble_char_value(b[i] / 16);
        lemma_nibble_char_value(b[i] % 16);
    }
    assert(hex_bytes_of(h) =~= b);
}

/// Relies on `hex::encode`: lowercase digits, two per byte, high nibble
/// first.
#[verifier::external_body]
pub(crate) fn hex_encode(data: &[u8]) -> (r: String)
    ensures
        r@ == hex_of(data@),
{
    hex::encode(data)
}

/// Relies on `hex::decode`: accepts upper- and lower-case digits, mixed
/// freely; fails exactly on an odd number of digits or a character that is
/// not a hex digit.
#[verifier::external_body]
pub(crate) fn hex_decode(data: &str) -> (r: Option<Vec<u8>>)
    ensures
        r is Some <==> hex_valid(data@),
        r matches Some(b) ==> b@ == hex_bytes_of(data@),
{
    hex::decode(data).ok()
}

} // verus!
