//! Verified string comparison.
//!
//! `&str` equality is decided here by comparing the UTF-8 bytes of the two
//! strings; the UTF-8 round-trip lemmas of vstd carry the byte equality
//! back to equality of the character sequences.

use vstd::prelude::*;

verus! {

use vstd::utf8::{encode_utf8, encode_utf8_decode_utf8};

/// True iff the two strings hold the same characters.
pub fn str_eq(a: &str, b: &str) -> (r: bool)
    ensures
        r == (a@ == b@),
{
    let ab = a.as_bytes();
    let bb = b.as_bytes();
    if ab.len() != bb.len() {
        proof {
            if a@ == b@ {
                assert(encode_utf8(a@) == encode_utf8(b@));
            }
        }
        return false;
    }
    let n = ab.len();
    let mut i: usize = 0;
    while i < n
        invariant
            i <= n,
            n == ab@.len() == bb@.len(),
            ab@ == encode_utf8(a@),
            bb@ == encode_utf8(b@),
            forall|k: int| 0 <= k < i ==> ab@[k] == bb@[k],
        decreases n - i,
    {
        if ab[i] != bb[i] {
            proof {
                if a@ == b@ {
                    assert(encode_utf8(a@) == encode_utf8(b@));
                }
            }
            return false;
        }
        i += 1;
    }
    proof {
        assert(ab@ =~= bb@);
        encode_utf8_decode_utf8(a@);
        encode_utf8_decode_utf8(b@);
    }
    true
}

} // verus!
