use vstd::prelude::*;
use vstd::utf8::encode_utf8;
use cosmwasm_std::StdError;
use crate::airdrop::order::lex_sign;
use crate::airdrop::merkle::pair_input;
use crate::airdrop::hashing::{decimal_digits, hex_decode, keccak256};
use crate::airdrop::contract::{claim_outcome, config_update, merkle_fold, owner_error};
use crate::airdrop::error::ContractError;
use crate::airdrop::state::ConfigView;

verus! {

/// Comparing in the other order gives the opposite answer.
pub proof fn law_lex_antisymmetric(a: Seq<u8>, b: Seq<u8>, i: int)
    requires
        a.len() == b.len(),
    ensures
        lex_sign(a, b, i) == -lex_sign(b, a, i),
    decreases a.len() - i,
{
    if 0 <= i < a.len() && a[i] == b[i] {
        law_lex_antisymmetric(a, b, i + 1);
    }
}

/// Two sequences of the same length compare equal exactly when they are
/// equal.
pub proof fn law_lex_equal_iff(a: Seq<u8>, b: Seq<u8>)
    requires
        a.len() == b.len(),
    ensures
        lex_sign(a, b, 0) == 0 <==> a == b,
{
    lemma_lex_zero_suffix(a, b, 0);
    if lex_sign(a, b, 0) == 0 {
        assert(a =~= b);
    }
}

proof fn lemma_lex_zero_suffix(a: Seq<u8>, b: Seq<u8>, i: int)
    requires
        a.len() == b.len(),
        0 <= i <= a.len(),
    ensures
        lex_sign(a, b, i) == 0 <==> forall|j: int| i <= j < a.len() ==> a[j] == b[j],
    decreases a.len() - i,
{
    if i < a.len() {
        lemma_lex_zero_suffix(a, b, i + 1);
    }
}

/// The order is transitive.
pub proof fn law_lex_transitive(a: Seq<u8>, b: Seq<u8>, c: Seq<u8>, i: int)
    requires
        a.len() == b.len(),
        b.len() == c.len(),
        lex_sign(a, b, i) < 0,
        lex_sign(b, c, i) < 0,
    ensures
        lex_sign(a, c, i) < 0,
    decreases a.len() - i,
{
    if 0 <= i < a.len() && a[i] == b[i] && b[i] == c[i] {
        law_lex_transitive(a, b, c, i + 1);
    }
}

/// Combining a node with its sibling does not depend on which of the two is
/// the node: a proof may list siblings without saying on which side they lie.
pub proof fn law_pair_input_symmetric(hash: Seq<u8>, sibling: Seq<u8>)
    requires
        hash.len() == sibling.len(),
    ensures
        pair_input(hash, sibling) == pair_input(sibling, hash),
{
    law_lex_antisymmetric(hash, sibling, 0);
    law_lex_equal_iff(hash, sibling);
}

/// Comparing from position `k` on finds `a` smaller exactly when, at the
/// first position where the two differ, `a` holds the smaller byte.
proof fn lemma_lex_negative(a: Seq<u8>, b: Seq<u8>, k: int)
    requires
        a.len() == b.len(),
        0 <= k <= a.len(),
    ensures
        lex_sign(a, b, k) < 0 <==> exists|i: int|
            #![trigger a[i], b[i]]
            k <= i < a.len() && a[i] < b[i] && forall|j: int| k <= j < i ==> a[j] == b[j],
    decreases a.len() - k,
{
    if k < a.len() {
        lemma_lex_negative(a, b, k + 1);
        if a[k] < b[k] {
            assert(a[k] < b[k]);
        } else if a[k] == b[k] {
            if lex_sign(a, b, k + 1) < 0 {
                let i = choose|i: int|
                    #![trigger a[i], b[i]]
                    k + 1 <= i < a.len() && a[i] < b[i] && forall|j: int| k + 1 <= j < i ==> a[j] == b[j];
                assert(a[i] < b[i]);
            }
        }
    }
}

/// Combining a node with its sibling hashes the smaller of the two first: the
/// node goes first exactly when, at the first byte where they differ, its
/// byte is the smaller.
pub proof fn law_pair_input_order(hash: Seq<u8>, sibling: Seq<u8>)
    requires
        hash.len() == sibling.len(),
    ensures
        (exists|i: int|
            #![trigger hash[i], sibling[i]]
            0 <= i < hash.len() && hash[i] < sibling[i] && forall|j: int| 0 <= j < i ==> hash[j] == sibling[j])
            ==> pair_input(hash, sibling) == hash + sibling,
        !(exists|i: int|
            #![trigger hash[i], sibling[i]]
            0 <= i < hash.len() && hash[i] < sibling[i] && forall|j: int| 0 <= j < i ==> hash[j] == sibling[j])
            ==> pair_input(hash, sibling) == sibling + hash,
{
    lemma_lex_negative(hash, sibling, 0);
}

/// A proof with no sibling leaves the hash as it is; one sibling hashes the
/// pair once; and following one part of a proof and then the rest is
/// following all of it.
pub proof fn law_merkle_fold_steps(hash: Seq<u8>, p1: Seq<Seq<u8>>, p2: Seq<Seq<u8>>, sibling: Seq<u8>)
    ensures
        merkle_fold(hash, Seq::empty()) == hash,
        merkle_fold(hash, seq![sibling]) == keccak256(pair_input(hash, sibling)),
        merkle_fold(hash, p1 + p2) == merkle_fold(merkle_fold(hash, p1), p2),
    decreases p1.len(),
{
    assert(seq![sibling].drop_first() =~= Seq::<Seq<u8>>::empty());
    assert(merkle_fold(keccak256(pair_input(hash, sibling)), Seq::<Seq<u8>>::empty()) == keccak256(
        pair_input(hash, sibling),
    ));
    if p1.len() == 0 {
        assert(p1 + p2 =~= p2);
    } else {
        assert((p1 + p2).drop_first() =~= p1.drop_first() + p2);
        assert((p1 + p2)[0] == p1[0]);
        law_merkle_fold_steps(keccak256(pair_input(hash, p1[0])), p1.drop_first(), p2, sibling);
    }
}

/// The number that a string of ASCII decimal digits spells.
pub open spec fn digits_value(s: Seq<u8>) -> int
    decreases s.len(),
{
    if s.len() == 0 {
        0
    } else {
        digits_value(s.drop_last()) * 10 + (s.last() - 48)
    }
}

/// The amount of a claim is written in decimal: ASCII digits, without a
/// leading zero, that spell the amount.
pub proof fn law_decimal_digits(n: nat)
    ensures
        decimal_digits(n).len() >= 1,
        forall|i: int| 0 <= i < decimal_digits(n).len() ==> 48 <= #[trigger] decimal_digits(n)[i] <= 57,
        digits_value(decimal_digits(n)) == n,
        decimal_digits(n)[0] == 48 ==> n == 0,
    decreases n,
{
    if n >= 10 {
        law_decimal_digits(n / 10);
        let d = decimal_digits(n);
        assert(d.drop_last() =~= decimal_digits(n / 10));
        assert(d[0] == decimal_digits(n / 10)[0]);
        assert(d.last() == (48 + n % 10) as u8);
        assert(n == (n / 10) * 10 + n % 10);
        assert(digits_value(d) == digits_value(decimal_digits(n / 10)) * 10 + (d.last() - 48));
        assert forall|i: int| 0 <= i < d.len() implies 48 <= #[trigger] d[i] <= 57 by {
            if i < d.len() - 1 {
                assert(d[i] == decimal_digits(n / 10)[i]);
            }
        }
    } else {
        assert(decimal_digits(n).drop_last() =~= Seq::<u8>::empty());
        assert(digits_value(Seq::<u8>::empty()) == 0);
        assert(digits_value(decimal_digits(n)) == digits_value(Seq::<u8>::empty()) * 10 + (decimal_digits(
            n,
        ).last() - 48));
    }
}

/// The answer to a claim: `Claimed` when the address already claimed the
/// stage; otherwise granted exactly when folding the proof's decoded siblings
/// into the Keccak-256 hash of the address followed by the amount in decimal
/// gives the stage's decoded root, and `Unauthorized` when it does not.
pub proof fn law_claim_decision(
    merkle_root: String,
    claimed: bool,
    sender: Seq<char>,
    amount: u128,
    proof: Seq<String>,
)
    ensures
        claimed ==> claim_outcome(merkle_root, claimed, sender, amount, proof) == Err::<
            (),
            ContractError,
        >(ContractError::Claimed {  }),
        !claimed ==> claim_outcome(merkle_root, claimed, sender, amount, proof) == if merkle_fold(
            keccak256(encode_utf8(sender) + decimal_digits(amount as nat)),
            Seq::new(proof.len(), |i: int| hex_decode(encode_utf8(proof[i]@))),
        ) == hex_decode(encode_utf8(merkle_root@)) {
            Ok::<(), ContractError>(())
        } else {
            Err::<(), ContractError>(ContractError::Unauthorized {  })
        },
{
    assert(crate::airdrop::contract::decoded_proofs(proof) =~= Seq::new(
        proof.len(),
        |i: int| hex_decode(encode_utf8(proof[i]@)),
    ));
}

/// Only the owner may change the airdrop: a failed check of the sender's
/// address is the error, anyone else is refused, and the owner may hand the
/// contract to a checked new address; the token never changes.
pub proof fn law_owner_update(
    config: ConfigView,
    sender: Result<String, StdError>,
    owner: Option<Result<String, StdError>>,
)
    ensures
        sender is Err ==> owner_error(config, sender) == Some(ContractError::Std(sender->Err_0)),
        sender is Ok && sender->Ok_0@ != config.owner ==> owner_error(config, sender) == Some(
            ContractError::Unauthorized {  },
        ),
        sender is Ok && sender->Ok_0@ == config.owner ==> owner_error(config, sender) is None,
        owner_error(config, sender) is Some ==> config_update(config, sender, owner) == Err::<
            ConfigView,
            ContractError,
        >(owner_error(config, sender)->0),
        owner_error(config, sender) is None && owner is Some && owner->0 is Ok ==> config_update(
            config,
            sender,
            owner,
        ) == Ok::<ConfigView, ContractError>(
            ConfigView { owner: owner->0->Ok_0@, pluto_token: config.pluto_token },
        ),
        owner_error(config, sender) is None && owner is None ==> config_update(config, sender, owner)
            == Ok::<ConfigView, ContractError>(config),
        owner_error(config, sender) is None && owner is Some && owner->0 is Err ==> config_update(
            config,
            sender,
            owner,
        ) == Err::<ConfigView, ContractError>(ContractError::Std(owner->0->Err_0)),
{
}

} // verus!
