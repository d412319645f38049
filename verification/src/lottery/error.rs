use vstd::prelude::*;
use cosmwasm_std::StdError;

verus! {

/// Why the lottery contract refused a request.
#[derive(Debug)]
pub enum ContractError {
    /// A storage read or an address check failed.
    Std(StdError),
    /// The sender may not do this, or the lottery is of the wrong kind.
    Unauthorized {},
    /// The lottery does not hold enough tickets to draw a winner.
    NotEnoughPlayers {},
    /// A fast draw already has its five players.
    ContractFull {},
    /// The sender already plays in this fast draw.
    AlreadyExist {},
    /// The funds sent are not exactly the price of the tickets.
    WrongFunds {},
    /// A lottery and its jackpot must be played in the same token.
    WrongDenom {},
    /// A fast or daily lottery needs a jackpot lottery.
    JackpotLotteryNotFound {},
    /// A jackpot lottery was given an entry fee or a jackpot, or a lottery's
    /// jackpot is not a jackpot lottery.
    JackpotCrateFailed {},
}

} // verus!
