use vstd::prelude::*;
use std::cmp::Ordering;
use crate::airdrop::order::{bytes_cmp, lex_sign};

verus! {

/// The bytes hashed to combine a node with its sibling in a proof: the
/// smaller of the two (in lexicographic order) first.
pub open spec fn pair_input(hash: Seq<u8>, sibling: Seq<u8>) -> Seq<u8> {
    if lex_sign(hash, sibling, 0) < 0 {
        hash + sibling
    } else {
        sibling + hash
    }
}

fn concat_hashes(a: &[u8; 32], b: &[u8; 32]) -> (res: Vec<u8>)
    ensures
        res@ == a@ + b@,
{
    let mut res: Vec<u8> = Vec::new();
    let mut i: usize = 0;
    while i < 32
        invariant
            0 <= i <= 32,
            a@.len() == 32,
            res@ =~= a@.take(i as int),
        decreases 32 - i,
    {
        res.push(a[i]);
        i = i + 1;
    }
    let mut j: usize = 0;
    while j < 32
        invariant
            0 <= j <= 32,
            a@.len() == 32,
            b@.len() == 32,
            res@ =~= a@ + b@.take(j as int),
        decreases 32 - j,
    {
        res.push(b[j]);
        j = j + 1;
    }
    res
}

/// The bytes to hash to go up one level of a merkle proof from `hash` with
/// the sibling `proof`.
pub fn merkle_pair(hash: [u8; 32], proof: [u8; 32]) -> (res: Vec<u8>)
    ensures
        res@ == pair_input(hash@, proof@),
{
    match bytes_cmp(hash, proof) {
        Ordering::Less => concat_hashes(&hash, &proof),
        _ => concat_hashes(&proof, &hash),
    }
}

} // verus!
