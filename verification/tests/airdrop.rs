use cosmwasm_std::StdError;
use sha3::Digest;
use std::cmp::Ordering;
use pluto::airdrop::contract::{
    claim, claim_panics, instantiate, leaf_input, register_merkle_root,
    register_merkle_root_panics, update_config, update_merkle_root,
};
use pluto::airdrop::error::ContractError;
use pluto::airdrop::merkle::merkle_pair;
use pluto::airdrop::order::bytes_cmp;
use pluto::airdrop::state::Config;

fn s(x: &str) -> String {
    x.to_string()
}

fn keccak(data: &[u8]) -> [u8; 32] {
    sha3::Keccak256::digest(data).into()
}

fn leaf(addr: &str, amount: u128) -> [u8; 32] {
    keccak(format!("{}{}", addr, amount).as_bytes())
}

fn parent(a: [u8; 32], b: [u8; 32]) -> [u8; 32] {
    if a < b { keccak(&[a, b].concat()) } else { keccak(&[b, a].concat()) }
}

fn config() -> Config {
    Config { owner: s("owner0000"), pluto_token: s("token0000") }
}

#[test]
fn bytes_cmp_orders_lexicographically() {
    let mut a = [0u8; 32];
    let mut b = [0u8; 32];
    assert_eq!(bytes_cmp(a, b), Ordering::Equal);
    b[31] = 1;
    assert_eq!(bytes_cmp(a, b), Ordering::Less);
    assert_eq!(bytes_cmp(b, a), Ordering::Greater);
    a[0] = 1;
    assert_eq!(bytes_cmp(a, b), Ordering::Greater);
    b[0] = 2;
    assert_eq!(bytes_cmp(a, b), Ordering::Less);
}

#[test]
fn bytes_cmp_is_antisymmetric_and_transitive() {
    let a = [3u8; 32];
    let mut b = [3u8; 32];
    b[5] = 4;
    let mut c = b;
    c[20] = 9;
    assert_eq!(bytes_cmp(a, b), Ordering::Less);
    assert_eq!(bytes_cmp(b, c), Ordering::Less);
    assert_eq!(bytes_cmp(a, c), Ordering::Less);
    assert_eq!(bytes_cmp(c, a), Ordering::Greater);
}

#[test]
fn merkle_pair_puts_smaller_first() {
    let a = [1u8; 32];
    let b = [2u8; 32];
    assert_eq!(merkle_pair(a, b), [a, b].concat());
    assert_eq!(merkle_pair(b, a), [a, b].concat());
    assert_eq!(merkle_pair(a, a), [a, a].concat());
}

#[test]
fn leaf_input_is_address_then_decimal_amount() {
    assert_eq!(leaf_input(&s("terra1xyz"), 1234500), b"terra1xyz1234500".to_vec());
    assert_eq!(leaf_input(&s("a"), 0), b"a0".to_vec());
    assert_eq!(leaf_input(&s(""), u128::MAX), u128::MAX.to_string().into_bytes());
}

#[test]
fn claims_against_a_tree() {
    let l1 = leaf("addr1", 100);
    let l2 = leaf("addr2", 200);
    let l3 = leaf("addr3", 300);
    let n12 = parent(l1, l2);
    let root = parent(n12, l3);
    let root_hex = hex::encode(root);
    let proof1 = vec![hex::encode(l2), hex::encode(l3)];
    let proof3 = vec![hex::encode(n12)];
    assert!(claim(&root_hex, false, &s("addr1"), 100, &proof1).is_ok());
    assert!(claim(&root_hex.to_uppercase(), false, &s("addr1"), 100, &proof1).is_ok());
    assert!(claim(&root_hex, false, &s("addr3"), 300, &proof3).is_ok());
    let r = claim(&root_hex, false, &s("addr1"), 101, &proof1);
    assert!(matches!(r, Err(ContractError::Unauthorized {})));
    let r = claim(&root_hex, false, &s("addr2"), 100, &proof1);
    assert!(matches!(r, Err(ContractError::Unauthorized {})));
    let r = claim(&root_hex, true, &s("addr1"), 100, &proof1);
    assert!(matches!(r, Err(ContractError::Claimed {})));
    // A single-leaf tree: the root is the leaf's hash and the proof is empty.
    assert!(claim(&hex::encode(l3), false, &s("addr3"), 300, &vec![]).is_ok());
}

#[test]
fn claim_panic_report() {
    let good = hex::encode([7u8; 32]);
    assert!(!claim_panics(&good, false, &vec![good.clone()]));
    assert!(claim_panics(&good, false, &vec![s("zz")]));
    assert!(claim_panics(&good, false, &vec![good[..62].to_string()]));
    assert!(claim_panics(&s("not hex"), false, &vec![]));
    assert!(!claim_panics(&s("not hex"), true, &vec![s("zz")]));
}

#[test]
fn stages_and_roots() {
    let c = config();
    let r = register_merkle_root(&c, Ok(s("owner0000")), Ok(0), s("ab")).unwrap();
    assert_eq!(r, (1, s("ab")));
    let r = register_merkle_root(&c, Ok(s("owner0000")), Ok(41), s("cd")).unwrap();
    assert_eq!(r.0, 42);
    let r = register_merkle_root(&c, Ok(s("someone00")), Ok(0), s("ab"));
    assert!(matches!(r, Err(ContractError::Unauthorized {})));
    let r = register_merkle_root(&c, Err(StdError::generic_err("bad sender")), Ok(0), s("ab"));
    assert!(matches!(r, Err(ContractError::Std(_))));
    let r = register_merkle_root(&c, Ok(s("owner0000")), Err(StdError::not_found("u8")), s("ab"));
    assert!(matches!(r, Err(ContractError::Std(_))));
    assert!(register_merkle_root_panics(&c, &Ok(s("owner0000")), &Ok(255)));
    assert!(!register_merkle_root_panics(&c, &Ok(s("someone00")), &Ok(255)));
    assert!(!register_merkle_root_panics(&c, &Ok(s("owner0000")), &Ok(254)));
    let r = update_merkle_root(&c, Ok(s("owner0000")), 7, s("ef")).unwrap();
    assert_eq!(r, (7, s("ef")));
    let r = update_merkle_root(&c, Ok(s("other0000")), 7, s("ef"));
    assert!(matches!(r, Err(ContractError::Unauthorized {})));
}

#[test]
fn airdrop_config() {
    let (c, stage) = instantiate(Ok(s("owner0000")), Ok(s("token0000"))).unwrap();
    assert_eq!(c.owner, "owner0000");
    assert_eq!(c.pluto_token, "token0000");
    assert_eq!(stage, 0);
    assert!(instantiate(Ok(s("owner0000")), Err(StdError::generic_err("x"))).is_err());
    let c2 = update_config(c.clone(), Ok(s("owner0000")), Some(Ok(s("next00000")))).unwrap();
    assert_eq!(c2.owner, "next00000");
    assert_eq!(c2.pluto_token, "token0000");
    let c3 = update_config(c.clone(), Ok(s("owner0000")), None).unwrap();
    assert_eq!(c3.owner, "owner0000");
    let r = update_config(c, Ok(s("next00000")), None);
    assert!(matches!(r, Err(ContractError::Unauthorized {})));
}

#[test]
fn registrations_number_stages_in_order() {
    let (c, mut latest) = instantiate(Ok(s("owner0000")), Ok(s("token0000"))).unwrap();
    let mut roots = std::collections::BTreeMap::new();
    for r in ["r1", "r2", "r3"] {
        let (stage, root) = register_merkle_root(&c, Ok(s("owner0000")), Ok(latest), s(r)).unwrap();
        roots.insert(stage, root);
        latest = stage;
    }
    assert_eq!(latest, 3);
    assert_eq!(roots.len(), 3);
    assert_eq!(roots[&1], "r1");
    assert_eq!(roots[&2], "r2");
    assert_eq!(roots[&3], "r3");
}

#[test]
fn a_granted_claim_is_refused_on_retry() {
    let l1 = leaf("addr1", 100);
    let l2 = leaf("addr2", 200);
    let root_hex = hex::encode(parent(l1, l2));
    let mut claimed = std::collections::BTreeSet::new();
    let stage = 1u8;
    let first = claim(&root_hex, claimed.contains(&(s("addr1"), stage)), &s("addr1"), 100, &vec![hex::encode(l2)]);
    assert!(first.is_ok());
    claimed.insert((s("addr1"), stage));
    for (amount, proof) in [(100, vec![hex::encode(l2)]), (5, vec![]), (200, vec![s("not hex")])] {
        let retry = claim(&root_hex, claimed.contains(&(s("addr1"), stage)), &s("addr1"), amount, &proof);
        assert!(matches!(retry, Err(ContractError::Claimed {})));
    }
    // Another address is not affected.
    let other = claim(&root_hex, claimed.contains(&(s("addr2"), stage)), &s("addr2"), 200, &vec![hex::encode(l1)]);
    assert!(other.is_ok());
}
