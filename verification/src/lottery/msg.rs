use vstd::prelude::*;
use crate::decimal::Decimal;
use crate::lottery::state::LotteryType;

verus! {

/// The parameters the contract is created with.
pub struct InstantiateMsg {
    pub distribution_addr: String,
    pub winner_handler: String,
    pub percent_to_distributor: Decimal,
    pub percent_to_jackpot: Decimal,
}

/// A request to open a new lottery.
#[derive(Clone, Debug)]
pub struct NewLotteryMsg {
    pub denom: String,
    pub entry_fee: Option<u128>,
    pub lottery_type: LotteryType,
    pub jackpot_lottery_id: Option<u64>,
}

/// The queries the contract answers.
#[derive(Clone, Copy, Debug, PartialEq, Eq, Structural)]
pub enum QueryMsg {
    Lotteries {},
}

} // verus!
