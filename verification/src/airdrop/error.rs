use vstd::prelude::*;
use cosmwasm_std::StdError;

verus! {

/// Why the airdrop contract refused a request.
#[derive(Debug)]
pub enum ContractError {
    /// A storage read or an address check failed.
    Std(StdError),
    /// The sender may not do this, or the merkle proof does not lead to the
    /// stage's root.
    Unauthorized {},
    /// The sender already claimed this stage.
    Claimed {},
}

} // verus!
