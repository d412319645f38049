use vstd::prelude::*;
use std::cmp::Ordering;

verus! {

/// The lexicographic comparison of `a` and `b` from position `i` on: -1 when
/// `a` comes first, 1 when `b` does, 0 when they agree from `i` on.
pub open spec fn lex_sign(a: Seq<u8>, b: Seq<u8>, i: int) -> int
    decreases a.len() - i,
{
    if i < 0 || i >= a.len() || i >= b.len() {
        0
    } else if a[i] > b[i] {
        1
    } else if a[i] < b[i] {
        -1
    } else {
        lex_sign(a, b, i + 1)
    }
}

/// Compares two 32-byte hashes byte by byte, the first differing byte
/// deciding.
pub fn bytes_cmp(a: [u8; 32], b: [u8; 32]) -> (res: Ordering)
    ensures
        res == Ordering::Less <==> lex_sign(a@, b@, 0) < 0,
        res == Ordering::Greater <==> lex_sign(a@, b@, 0) > 0,
        res == Ordering::Equal <==> lex_sign(a@, b@, 0) == 0,
{
    let mut i: usize = 0;
    let ghost mut gi: int = 0;
    while i < 32
        invariant
            gi == i,
            0 <= gi <= 32,
            a@.len() == 32,
            b@.len() == 32,
            lex_sign(a@, b@, 0) == lex_sign(a@, b@, gi),
        decreases 32 - gi,
    {
        if a[i] > b[i] {
            return Ordering::Greater;
        } else if a[i] < b[i] {
            return Ordering::Less;
        }
        i = i + 1;
        proof {
            gi = gi + 1;
        }
    }
    Ordering::Equal
}

} // verus!
