use vstd::prelude::*;
use crate::decimal::Decimal;

verus! {

/// The parameters the distributor is created with.
#[derive(Clone, Debug)]
pub struct InstantiateMsg {
    pub angel_addr: String,
    pub operation_addr: String,
    pub reward_factor_operation: Decimal,
    pub collector_addr: String,
    pub reward_factor_collector: Decimal,
}

/// The queries the distributor answers.
#[derive(Clone, Copy, Debug, PartialEq, Eq, Structural)]
pub enum QueryMsg {
    Config {},
    State {},
}

/// The part of the configuration that a query shows.
#[derive(Clone, Debug)]
pub struct ConfigResponse {
    pub owner: String,
    pub angel_addr: String,
    pub operation_addr: String,
    pub reward_factor_operation: Decimal,
}

/// A migration takes no arguments.
#[derive(Clone, Copy, Debug, PartialEq, Eq, Structural)]
pub struct MigrateMsg {}

} // verus!
