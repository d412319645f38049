use vstd::prelude::*;
use cosmwasm_std::StdError;

verus! {

/// Why the distributor refused a request.
#[derive(Debug)]
pub enum ContractError {
    /// The sender is not the owner.
    Unauthorized {},
    /// A storage read, a balance query or an address check failed.
    Std(StdError),
}

} // verus!
