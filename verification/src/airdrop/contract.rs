use vstd::prelude::*;
use vstd::utf8::encode_utf8;
use cosmwasm_std::StdError;
use crate::airdrop::error::ContractError;
use crate::airdrop::hashing::{
    decimal_digits, decode_hex32, hex_decode, is_hex_of_len, keccak256, keccak256_digest,
    push_decimal_digits,
};
use crate::airdrop::merkle::{merkle_pair, pair_input};
use crate::airdrop::state::{Config, ConfigView};

verus! {

/// The configuration and latest stage a new airdrop starts with, or the first
/// failed address check.
pub open spec fn instantiated(
    owner: Result<String, StdError>,
    pluto_token: Result<String, StdError>,
) -> Result<(ConfigView, u8), StdError> {
    match owner {
        Err(e) => Err(e),
        Ok(o) => match pluto_token {
            Err(e) => Err(e),
            Ok(t) => Ok((ConfigView { owner: o@, pluto_token: t@ }, 0)),
        },
    }
}

/// The configuration of a new airdrop and its latest stage, 0. `owner` and
/// `pluto_token` are the results of checking the two addresses, in that order.
pub fn instantiate(owner: Result<String, StdError>, pluto_token: Result<String, StdError>) -> (res:
    Result<(Config, u8), StdError>)
    ensures
        match instantiated(owner, pluto_token) {
            Ok((v, l)) => res matches Ok((c, stage)) && c@ == v && stage == l,
            Err(e) => res == Err::<(Config, u8), StdError>(e),
        },
{
    let owner = match owner {
        Ok(o) => o,
        Err(e) => return Err(e),
    };
    let pluto_token = match pluto_token {
        Ok(t) => t,
        Err(e) => return Err(e),
    };
    Ok((Config { owner, pluto_token }, 0))
}

/// The sender, once its address was checked, is the owner.
pub open spec fn owner_error(config: ConfigView, sender: Result<String, StdError>) -> Option<
    ContractError,
> {
    match sender {
        Err(e) => Some(ContractError::Std(e)),
        Ok(s) => if s@ != config.owner {
            Some(ContractError::Unauthorized {  })
        } else {
            None
        },
    }
}

fn check_owner(config: &Config, sender: Result<String, StdError>) -> (res: Result<(), ContractError>)
    ensures
        match owner_error(config@, sender) {
            Some(e) => res == Err::<(), ContractError>(e),
            None => res is Ok,
        },
{
    match sender {
        Err(e) => Err(ContractError::Std(e)),
        Ok(s) => if s != config.owner {
            Err(ContractError::Unauthorized {  })
        } else {
            Ok(())
        },
    }
}

/// The answer to a request to replace the merkle root of `stage`.
pub open spec fn root_update(
    config: ConfigView,
    sender: Result<String, StdError>,
    stage: u8,
    merkle_root: String,
) -> Result<(u8, String), ContractError> {
    match owner_error(config, sender) {
        Some(e) => Err(e),
        None => Ok((stage, merkle_root)),
    }
}

/// Decides a request to replace the merkle root of `stage`: only the owner
/// may. `sender` is the result of checking the sender's address. Returns the
/// stage and root to store.
pub fn update_merkle_root(
    config: &Config,
    sender: Result<String, StdError>,
    stage: u8,
    merkle_root: String,
) -> (res: Result<(u8, String), ContractError>)
    ensures
        res == root_update(config@, sender, stage, merkle_root),
{
    check_owner(config, sender)?;
    Ok((stage, merkle_root))
}

/// The configuration after an update: refused unless the sender is the
/// owner, or when checking the new owner's address failed.
pub open spec fn config_update(
    config: ConfigView,
    sender: Result<String, StdError>,
    owner: Option<Result<String, StdError>>,
) -> Result<ConfigView, ContractError> {
    match owner_error(config, sender) {
        Some(e) => Err(e),
        None => match owner {
            None => Ok(config),
            Some(Err(e)) => Err(ContractError::Std(e)),
            Some(Ok(o)) => Ok(ConfigView { owner: o@, ..config }),
        },
    }
}

/// Replaces the owner, if a new one is given. Only the owner may. `owner` is
/// the result of checking the new owner's address.
pub fn update_config(
    config: Config,
    sender: Result<String, StdError>,
    owner: Option<Result<String, StdError>>,
) -> (res: Result<Config, ContractError>)
    ensures
        match config_update(config@, sender, owner) {
            Ok(v) => res matches Ok(c) && c@ == v,
            Err(e) => res == Err::<Config, ContractError>(e),
        },
{
    let mut config = config;
    check_owner(&config, sender)?;
    if let Some(owner) = owner {
        match owner {
            Ok(o) => {
                config.owner = o;
            },
            Err(e) => return Err(ContractError::Std(e)),
        }
    }
    Ok(config)
}

/// Registering a root panics when the latest stage is already 255.
pub open spec fn register_panics(
    config: ConfigView,
    sender: Result<String, StdError>,
    latest_stage: Result<u8, StdError>,
) -> bool {
    owner_error(config, sender) is None && latest_stage == Ok::<u8, StdError>(255u8)
}

/// What registering `merkle_root` gives: the owner's root becomes the stage
/// one past the latest.
pub open spec fn register_outcome(
    config: ConfigView,
    sender: Result<String, StdError>,
    latest_stage: Result<u8, StdError>,
    merkle_root: String,
) -> Result<(u8, String), ContractError> {
    match owner_error(config, sender) {
        Some(e) => Err(e),
        None => match latest_stage {
            Err(e) => Err(ContractError::Std(e)),
            Ok(l) => Ok(((l + 1) as u8, merkle_root)),
        },
    }
}

/// Publishes a merkle root as the next stage. Only the owner may.
/// `latest_stage` is what reading the latest stage gave. Returns the new
/// stage, one past the latest, and the root to store under it.
pub fn register_merkle_root(
    config: &Config,
    sender: Result<String, StdError>,
    latest_stage: Result<u8, StdError>,
    merkle_root: String,
) -> (res: Result<(u8, String), ContractError>)
    requires
        !register_panics(config@, sender, latest_stage),
    ensures
        res == register_outcome(config@, sender, latest_stage, merkle_root),
{
    check_owner(config, sender)?;
    let latest_stage = match latest_stage {
        Ok(l) => l,
        Err(e) => return Err(ContractError::Std(e)),
    };
    let stage = latest_stage + 1;
    Ok((stage, merkle_root))
}

/// Reports whether registering a root with these arguments panics.
pub fn register_merkle_root_panics(
    config: &Config,
    sender: &Result<String, StdError>,
    latest_stage: &Result<u8, StdError>,
) -> (b: bool)
    ensures
        b == register_panics(config@, *sender, *latest_stage),
{
    let authorized = match sender {
        Ok(s) => *s == config.owner,
        Err(_) => false,
    };
    authorized && match latest_stage {
        Ok(l) => *l == 255,
        Err(_) => false,
    }
}

/// The bytes hashed for a claim: the claimant's address followed by the
/// amount in decimal.
pub open spec fn leaf_input_spec(sender: Seq<char>, amount: u128) -> Seq<u8> {
    encode_utf8(sender) + decimal_digits(amount as nat)
}

/// The bytes hashed for a claim of `amount` by `sender`.
pub fn leaf_input(sender: &String, amount: u128) -> (res: Vec<u8>)
    ensures
        res@ == leaf_input_spec(sender@, amount),
{
    let bytes = sender.as_str().as_bytes();
    let mut res: Vec<u8> = Vec::new();
    let n = bytes.len();
    let mut i: usize = 0;
    while i < n
        invariant
            n == bytes@.len(),
            i <= n,
            res@ =~= bytes@.take(i as int),
        decreases n - i,
    {
        res.push(bytes[i]);
        i = i + 1;
    }
    assert(res@ =~= bytes@);
    push_decimal_digits(amount, &mut res);
    res
}

/// Hashes `hash` up through the siblings `proofs`, first to last.
pub open spec fn merkle_fold(hash: Seq<u8>, proofs: Seq<Seq<u8>>) -> Seq<u8>
    decreases proofs.len(),
{
    if proofs.len() == 0 {
        hash
    } else {
        merkle_fold(keccak256(pair_input(hash, proofs[0])), proofs.drop_first())
    }
}

/// The bytes of a string of hexadecimal digits.
pub open spec fn string_hex(s: String) -> Seq<u8> {
    encode_utf8(s@)
}

pub open spec fn decoded_proofs(proof: Seq<String>) -> Seq<Seq<u8>> {
    proof.map_values(|s: String| hex_decode(string_hex(s)))
}

/// The root and every proof element are 64 hexadecimal digits.
pub open spec fn claim_decodable(merkle_root: String, proof: Seq<String>) -> bool {
    &&& is_hex_of_len(string_hex(merkle_root), 32)
    &&& forall|i: int| 0 <= i < proof.len() ==> is_hex_of_len(#[trigger] string_hex(proof[i]), 32)
}

/// The proof leads from the claim's hash to the stage's root.
pub open spec fn proof_verifies(merkle_root: String, sender: Seq<char>, amount: u128, proof: Seq<String>) -> bool {
    merkle_fold(keccak256(leaf_input_spec(sender, amount)), decoded_proofs(proof)) == hex_decode(
        string_hex(merkle_root),
    )
}

/// The answer to a claim: refused when already claimed, granted when the proof
/// verifies, refused as unauthorized otherwise.
pub open spec fn claim_outcome(
    merkle_root: String,
    claimed: bool,
    sender: Seq<char>,
    amount: u128,
    proof: Seq<String>,
) -> Result<(), ContractError> {
    if claimed {
        Err(ContractError::Claimed {  })
    } else if proof_verifies(merkle_root, sender, amount, proof) {
        Ok(())
    } else {
        Err(ContractError::Unauthorized {  })
    }
}

fn same_hash(a: &[u8; 32], b: &[u8; 32]) -> (res: bool)
    ensures
        res == (a@ == b@),
{
    let mut i: usize = 0;
    while i < 32
        invariant
            0 <= i <= 32,
            a@.len() == 32,
            b@.len() == 32,
            forall|j: int| 0 <= j < i ==> a@[j] == b@[j],
        decreases 32 - i,
    {
        if a[i] != b[i] {
            return false;
        }
        i = i + 1;
    }
    assert(a@ =~= b@);
    true
}

/// Decides a claim of `amount` by `sender` at a stage whose root is
/// `merkle_root`. `claimed` says whether the sender already claimed that
/// stage. The claim is granted when the merkle proof leads from the hash of
/// the sender's address followed by the amount to the root.
pub fn claim(
    merkle_root: &String,
    claimed: bool,
    sender: &String,
    amount: u128,
    proof: &Vec<String>,
) -> (res: Result<(), ContractError>)
    requires
        !claimed ==> claim_decodable(*merkle_root, proof@),
    ensures
        res == claim_outcome(*merkle_root, claimed, sender@, amount, proof@),
{
    if claimed {
        return Err(ContractError::Claimed {  });
    }
    let user_input = leaf_input(sender, amount);
    let mut hash = keccak256_digest(user_input.as_slice());
    let ghost leaf_hash = hash@;
    let ghost decoded = decoded_proofs(proof@);
    let n = proof.len();
    assert(decoded.skip(0) =~= decoded);
    let mut i: usize = 0;
    while i < n
        invariant
            n == proof@.len(),
            i <= n,
            decoded == decoded_proofs(proof@),
            claim_decodable(*merkle_root, proof@),
            merkle_fold(hash@, decoded.skip(i as int)) == merkle_fold(leaf_hash, decoded),
        decreases n - i,
    {
        assert(is_hex_of_len(string_hex(proof@[i as int]), 32));
        let proof_buf = decode_hex32(proof[i].as_str().as_bytes()).unwrap();
        let pair = merkle_pair(hash, proof_buf);
        hash = keccak256_digest(pair.as_slice());
        assert(decoded.skip(i as int).drop_first() =~= decoded.skip(i + 1));
        assert(decoded.skip(i as int)[0] == proof_buf@);
        i = i + 1;
    }
    assert(decoded.skip(n as int) =~= Seq::<Seq<u8>>::empty());
    let root_buf = decode_hex32(merkle_root.as_str().as_bytes()).unwrap();
    if !same_hash(&root_buf, &hash) {
        return Err(ContractError::Unauthorized {  });
    }
    Ok(())
}

/// Reports whether a claim with these arguments panics: when not yet claimed,
/// the root or a proof element is not 64 hexadecimal digits.
pub fn claim_panics(merkle_root: &String, claimed: bool, proof: &Vec<String>) -> (b: bool)
    ensures
        b == (!claimed && !claim_decodable(*merkle_root, proof@)),
{
    if claimed {
        return false;
    }
    let n = proof.len();
    let mut i: usize = 0;
    while i < n
        invariant
            n == proof@.len(),
            i <= n,
            !claimed,
            forall|j: int| 0 <= j < i ==> is_hex_of_len(#[trigger] string_hex(proof@[j]), 32),
        decreases n - i,
    {
        if decode_hex32(proof[i].as_str().as_bytes()).is_none() {
            assert(!is_hex_of_len(string_hex(proof@[i as int]), 32));
            return true;
        }
        i = i + 1;
    }
    decode_hex32(merkle_root.as_str().as_bytes()).is_none()
}

} // verus!
