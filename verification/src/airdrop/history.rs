//! What the airdrop contract keeps between calls, and how each call changes
//! it: the entry points store exactly what the functions of `contract` return,
//! and a call that fails or panics changes nothing.
use vstd::prelude::*;
use cosmwasm_std::StdError;
use crate::airdrop::contract::{
    claim_decodable, claim_outcome, config_update, instantiated, owner_error, register_outcome,
    register_panics, root_update,
};
use crate::airdrop::error::ContractError;
use crate::airdrop::state::ConfigView;

verus! {

/// The contract's storage: its configuration, the latest stage, the merkle
/// root of each stage, and the (address, stage) pairs already claimed.
pub struct AirdropWorld {
    pub config: ConfigView,
    pub latest_stage: u8,
    pub roots: Map<u8, String>,
    pub claimed: Set<(Seq<char>, u8)>,
}

/// One call of an entry point. Addresses are given as the results of checking
/// them; a claim's sender is an address that passed that check (one that
/// fails it is refused before storage is read). `settled` says whether the
/// rest of a granted claim's transaction, building the token transfer,
/// succeeded; when it does not, the whole transaction is undone.
pub enum AirdropCall {
    UpdateConfig { sender: Result<String, StdError>, owner: Option<Result<String, StdError>> },
    UpdateMerkleRoot { sender: Result<String, StdError>, stage: u8, merkle_root: String },
    RegisterMerkleRoot { sender: Result<String, StdError>, merkle_root: String },
    Claim { sender: String, stage: u8, amount: u128, proof: Seq<String>, settled: bool },
}

/// The storage right after instantiation.
pub open spec fn fresh_airdrop(config: ConfigView) -> AirdropWorld {
    AirdropWorld { config, latest_stage: 0, roots: Map::empty(), claimed: Set::empty() }
}

/// What the claim logic answers to a claim, or `None` when the call never
/// reaches it (the stage has no root) or panics on it.
pub open spec fn claim_reply(
    w: AirdropWorld,
    sender: Seq<char>,
    stage: u8,
    amount: u128,
    proof: Seq<String>,
) -> Option<Result<(), ContractError>> {
    if !w.roots.contains_key(stage) {
        None
    } else {
        let root = w.roots[stage];
        let claimed = w.claimed.contains((sender, stage));
        if !claimed && !claim_decodable(root, proof) {
            None
        } else {
            Some(claim_outcome(root, claimed, sender, amount, proof))
        }
    }
}

/// The claim is granted and its transaction goes through.
pub open spec fn claim_granted(w: AirdropWorld, c: AirdropCall) -> bool {
    match c {
        AirdropCall::Claim { sender, stage, amount, proof, settled } => settled && claim_reply(
            w,
            sender@,
            stage,
            amount,
            proof,
        ) == Some(Ok::<(), ContractError>(())),
        _ => false,
    }
}

/// The storage after one call.
pub open spec fn airdrop_step(w: AirdropWorld, c: AirdropCall) -> AirdropWorld {
    match c {
        AirdropCall::UpdateConfig { sender, owner } => match config_update(w.config, sender, owner) {
            Ok(v) => AirdropWorld { config: v, ..w },
            Err(_) => w,
        },
        AirdropCall::UpdateMerkleRoot { sender, stage, merkle_root } => match root_update(
            w.config,
            sender,
            stage,
            merkle_root,
        ) {
            Ok((s, r)) => AirdropWorld { roots: w.roots.insert(s, r), ..w },
            Err(_) => w,
        },
        AirdropCall::RegisterMerkleRoot { sender, merkle_root } => {
            let latest = Ok::<u8, StdError>(w.latest_stage);
            if register_panics(w.config, sender, latest) {
                w
            } else {
                match register_outcome(w.config, sender, latest, merkle_root) {
                    Ok((s, r)) => AirdropWorld { latest_stage: s, roots: w.roots.insert(s, r), ..w },
                    Err(_) => w,
                }
            }
        },
        AirdropCall::Claim { sender, stage, .. } => if claim_granted(w, c) {
            AirdropWorld { claimed: w.claimed.insert((sender@, stage)), ..w }
        } else {
            w
        },
    }
}

/// The storage after the calls, first to last.
pub open spec fn airdrop_run(w: AirdropWorld, calls: Seq<AirdropCall>) -> AirdropWorld
    decreases calls.len(),
{
    if calls.len() == 0 {
        w
    } else {
        airdrop_run(airdrop_step(w, calls[0]), calls.drop_first())
    }
}

/// Registrations of the roots `roots`, in order, all sent by `sender`.
pub open spec fn registrations(sender: Result<String, StdError>, roots: Seq<String>) -> Seq<
    AirdropCall,
> {
    roots.map_values(
        |r: String| AirdropCall::RegisterMerkleRoot { sender: sender, merkle_root: r },
    )
}

/// Stages only gain roots and claims are never forgotten.
proof fn lemma_run_keeps(w: AirdropWorld, calls: Seq<AirdropCall>)
    ensures
        forall|s: u8| w.roots.contains_key(s) ==> #[trigger] airdrop_run(w, calls).roots.contains_key(s),
        forall|k: (Seq<char>, u8)| w.claimed.contains(k) ==> #[trigger] airdrop_run(
            w,
            calls,
        ).claimed.contains(k),
    decreases calls.len(),
{
    if calls.len() > 0 {
        let w1 = airdrop_step(w, calls[0]);
        lemma_run_keeps(w1, calls.drop_first());
        assert(airdrop_run(w, calls) == airdrop_run(w1, calls.drop_first()));
        assert forall|s: u8| w.roots.contains_key(s) implies #[trigger] airdrop_run(
            w,
            calls,
        ).roots.contains_key(s) by {
            assert(w1.roots.contains_key(s));
        }
        assert forall|k: (Seq<char>, u8)| w.claimed.contains(k) implies #[trigger] airdrop_run(
            w,
            calls,
        ).claimed.contains(k) by {
            assert(w1.claimed.contains(k));
        }
    }
}

/// An address claims each stage at most once: once a claim is granted, every
/// later claim of the same stage by the same address, with any amount and any
/// proof, and whatever calls come in between, is answered `Claimed` and
/// changes nothing.
pub proof fn law_claim_granted_once(
    w: AirdropWorld,
    first: AirdropCall,
    later: Seq<AirdropCall>,
    i: int,
)
    requires
        claim_granted(w, first),
        0 <= i < later.len(),
        later[i] is Claim,
        later[i]->Claim_sender@ == first->Claim_sender@,
        later[i]->Claim_stage == first->Claim_stage,
    ensures
        ({
            let before = airdrop_run(airdrop_step(w, first), later.take(i));
            &&& claim_reply(
                before,
                later[i]->Claim_sender@,
                later[i]->Claim_stage,
                later[i]->Claim_amount,
                later[i]->Claim_proof,
            ) == Some(Err::<(), ContractError>(ContractError::Claimed {  }))
            &&& airdrop_step(before, later[i]) == before
        }),
{
    let w1 = airdrop_step(w, first);
    let key = (first->Claim_sender@, first->Claim_stage);
    assert(w1.claimed.contains(key));
    assert(w1.roots.contains_key(first->Claim_stage));
    lemma_run_keeps(w1, later.take(i));
}

/// Registering `k` roots in a row, all by the owner, numbers them as the `k`
/// stages after the latest one: the latest stage rises by `k`, stage
/// `latest + j` holds the `j`-th root, and no other stage changes.
pub proof fn law_registrations_number_stages(
    w: AirdropWorld,
    sender: Result<String, StdError>,
    roots: Seq<String>,
)
    requires
        owner_error(w.config, sender) is None,
        w.latest_stage + roots.len() <= 255,
    ensures
        ({
            let after = airdrop_run(w, registrations(sender, roots));
            &&& after.latest_stage == w.latest_stage + roots.len()
            &&& forall|j: int|
                0 <= j < roots.len() ==> after.roots.contains_key(#[trigger] ((w.latest_stage + j + 1) as u8))
                    && after.roots[((w.latest_stage + j + 1) as u8)] == roots[j]
            &&& forall|s: u8|
                !(w.latest_stage < s <= w.latest_stage + roots.len()) ==> (#[trigger] after.roots.contains_key(s)
                    == w.roots.contains_key(s) && (w.roots.contains_key(s) ==> after.roots[s]
                    == w.roots[s]))
            &&& after.config == w.config
            &&& after.claimed == w.claimed
        }),
    decreases roots.len(),
{
    let calls = registrations(sender, roots);
    if roots.len() > 0 {
        let s1 = (w.latest_stage + 1) as u8;
        let w1 = airdrop_step(w, calls[0]);
        assert(w1.latest_stage == s1);
        assert(w1.roots == w.roots.insert(s1, roots[0]));
        assert(calls.drop_first() =~= registrations(sender, roots.drop_first()));
        law_registrations_number_stages(w1, sender, roots.drop_first());
        let after = airdrop_run(w, calls);
        assert(after == airdrop_run(w1, registrations(sender, roots.drop_first())));
        assert forall|j: int| 0 <= j < roots.len() implies after.roots.contains_key(
            #[trigger] ((w.latest_stage + j + 1) as u8),
        ) && after.roots[((w.latest_stage + j + 1) as u8)] == roots[j] by {
            if j > 0 {
                let s = ((w1.latest_stage + (j - 1) + 1) as u8);
                assert(s == ((w.latest_stage + j + 1) as u8));
                assert(after.roots.contains_key(s));
                assert(roots.drop_first()[j - 1] == roots[j]);
            } else {
                assert(after.roots.contains_key(s1));
            }
        }
    }
}

/// After `k` registrations by the owner on a freshly instantiated airdrop,
/// the latest stage is `k`, the stages 1 to `k` hold the roots in order, and
/// no other stage has one.
pub proof fn law_fresh_registrations(
    config: ConfigView,
    sender: Result<String, StdError>,
    roots: Seq<String>,
)
    requires
        owner_error(config, sender) is None,
        roots.len() <= 255,
    ensures
        ({
            let after = airdrop_run(fresh_airdrop(config), registrations(sender, roots));
            &&& after.latest_stage == roots.len()
            &&& forall|s: u8|
                #[trigger] after.roots.contains_key(s) <==> 1 <= s <= roots.len()
            &&& forall|j: int| 0 <= j < roots.len() ==> after.roots[(j + 1) as u8] == #[trigger] roots[j]
        }),
{
    law_registrations_number_stages(fresh_airdrop(config), sender, roots);
    let after = airdrop_run(fresh_airdrop(config), registrations(sender, roots));
    assert forall|j: int| 0 <= j < roots.len() implies after.roots[(j + 1) as u8] == #[trigger] roots[j] by {
        assert(((0 + j + 1) as u8) == (j + 1) as u8);
    }
    assert forall|s: u8| #[trigger] after.roots.contains_key(s) <==> 1 <= s <= roots.len() by {
        if 1 <= s <= roots.len() {
            assert(((0 + (s - 1) + 1) as u8) == s);
        }
    }
}

/// Registering a root by the owner: it goes under the stage after the latest
/// one, which becomes the latest, unless the latest is already 255 (then the
/// call panics). Replacing the root of a stage by the owner stores the given
/// root under the given stage and changes nothing else. Anyone else changes
/// nothing.
pub proof fn law_root_calls(w: AirdropWorld, sender: Result<String, StdError>, stage: u8, root: String)
    ensures
        owner_error(w.config, sender) is None && w.latest_stage < 255 ==> {
            let after = airdrop_step(
                w,
                AirdropCall::RegisterMerkleRoot { sender: sender, merkle_root: root },
            );
            &&& after.latest_stage == w.latest_stage + 1
            &&& after.roots == w.roots.insert((w.latest_stage + 1) as u8, root)
            &&& after.claimed == w.claimed && after.config == w.config
        },
        owner_error(w.config, sender) is None ==> airdrop_step(
            w,
            AirdropCall::UpdateMerkleRoot { sender: sender, stage: stage, merkle_root: root },
        ) == (AirdropWorld { roots: w.roots.insert(stage, root), ..w }),
        owner_error(w.config, sender) is Some ==> airdrop_step(
            w,
            AirdropCall::UpdateMerkleRoot { sender: sender, stage: stage, merkle_root: root },
        ) == w && airdrop_step(
            w,
            AirdropCall::RegisterMerkleRoot { sender: sender, merkle_root: root },
        ) == w,
{
}

/// A new airdrop is owned by its given owner, pays in its given token and is
/// at stage 0; a failed check, the owner's first, is the error.
pub proof fn law_instantiated(owner: Result<String, StdError>, pluto_token: Result<String, StdError>)
    ensures
        owner is Err ==> instantiated(owner, pluto_token) == Err::<(ConfigView, u8), StdError>(
            owner->Err_0,
        ),
        owner is Ok && pluto_token is Err ==> instantiated(owner, pluto_token) == Err::<
            (ConfigView, u8),
            StdError,
        >(pluto_token->Err_0),
        owner is Ok && pluto_token is Ok ==> instantiated(owner, pluto_token) == Ok::<
            (ConfigView, u8),
            StdError,
        >((ConfigView { owner: owner->Ok_0@, pluto_token: pluto_token->Ok_0@ }, 0u8)),
{
}

/// Registering panics exactly when the owner registers while the latest
/// stage is already 255.
pub proof fn law_register_panics(config: ConfigView, sender: Result<String, StdError>, latest: u8)
    ensures
        register_panics(config, sender, Ok(latest)) <==> (sender is Ok && sender->Ok_0@ == config.owner
            && latest == 255),
{
}

} // verus!
