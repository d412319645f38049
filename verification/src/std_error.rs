use vstd::prelude::*;

verus! {

/// cosmwasm's standard error. The library never looks inside one: it only
/// hands back, unchanged, the errors that a storage read or an address check
/// made by an entry point produced.
#[verifier::external_type_specification]
#[verifier::external_body]
pub struct ExStdError(cosmwasm_std::StdError);

} // verus!
