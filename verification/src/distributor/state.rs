use vstd::prelude::*;
use crate::decimal::Decimal;

verus! {

/// The distributor's configuration.
#[derive(Clone, Debug)]
pub struct Config {
    pub owner: String,
    pub angel_addr: String,
    pub operation_addr: String,
    pub collector_addr: String,
    /// The share of a distribution that goes to `operation_addr`.
    pub reward_factor_operation: Decimal,
    /// The share of a distribution that goes to `collector_addr`.
    pub reward_factor_collector: Decimal,
}

pub struct ConfigView {
    pub owner: Seq<char>,
    pub angel_addr: Seq<char>,
    pub operation_addr: Seq<char>,
    pub collector_addr: Seq<char>,
    pub reward_factor_operation: Decimal,
    pub reward_factor_collector: Decimal,
}

impl View for Config {
    type V = ConfigView;

    open spec fn view(&self) -> ConfigView {
        ConfigView {
            owner: self.owner@,
            angel_addr: self.angel_addr@,
            operation_addr: self.operation_addr@,
            collector_addr: self.collector_addr@,
            reward_factor_operation: self.reward_factor_operation,
            reward_factor_collector: self.reward_factor_collector,
        }
    }
}

/// What the angel wallet received so far, in UST and in LUNA.
#[derive(Clone, Copy, Debug, PartialEq, Eq, Structural)]
pub struct StateData {
    pub accumulated_angel_amount_ust: u128,
    pub accumulated_angel_amount_luna: u128,
}

} // verus!
