use vstd::prelude::*;
use cosmwasm_std::StdError;
use crate::decimal::{Decimal, decimal_mul, decimal_mul_checked, decimal_mul_spec};
use crate::distributor::collector::{ConfigResponse, InstantiateMsg};
use crate::distributor::error::ContractError;
use crate::distributor::state::{Config, ConfigView, StateData};

verus! {

/// The configuration and totals a new distributor starts with, or the first
/// failed address check.
pub open spec fn instantiated(
    sender: Seq<char>,
    msg: InstantiateMsg,
    angel_addr: Result<String, StdError>,
    operation_addr: Result<String, StdError>,
) -> Result<(ConfigView, StateData), StdError> {
    match angel_addr {
        Err(e) => Err(e),
        Ok(a) => match operation_addr {
            Err(e) => Err(e),
            Ok(o) => Ok(
                (
                    ConfigView {
                        owner: sender,
                        angel_addr: a@,
                        operation_addr: o@,
                        collector_addr: msg.collector_addr@,
                        reward_factor_operation: msg.reward_factor_operation,
                        reward_factor_collector: msg.reward_factor_collector,
                    },
                    StateData { accumulated_angel_amount_ust: 0, accumulated_angel_amount_luna: 0 },
                ),
            ),
        },
    }
}

/// The configuration and the empty totals of a new distributor; the sender
/// owns it. `angel_addr` and `operation_addr` are the results of checking
/// those two addresses of `msg`, in that order.
pub fn instantiate(
    sender: &String,
    msg: &InstantiateMsg,
    angel_addr: Result<String, StdError>,
    operation_addr: Result<String, StdError>,
) -> (res: Result<(Config, StateData), StdError>)
    ensures
        match instantiated(sender@, *msg, angel_addr, operation_addr) {
            Ok((v, st)) => res matches Ok((c, s)) && c@ == v && s == st,
            Err(e) => res == Err::<(Config, StateData), StdError>(e),
        },
{
    let angel_addr = match angel_addr {
        Ok(a) => a,
        Err(e) => return Err(e),
    };
    let operation_addr = match operation_addr {
        Ok(o) => o,
        Err(e) => return Err(e),
    };
    let config = Config {
        owner: sender.clone(),
        angel_addr,
        operation_addr,
        reward_factor_operation: msg.reward_factor_operation,
        collector_addr: msg.collector_addr.clone(),
        reward_factor_collector: msg.reward_factor_collector,
    };
    Ok((config, StateData { accumulated_angel_amount_ust: 0, accumulated_angel_amount_luna: 0 }))
}

pub open spec fn checked_addr_or(o: Option<Result<String, StdError>>, current: Seq<char>) -> Seq<char> {
    match o {
        Some(Ok(a)) => a@,
        _ => current,
    }
}

/// The first failed address check among the given new addresses, in the
/// order owner, angel, collector, operation.
pub open spec fn first_failed_check(
    owner: Option<Result<String, StdError>>,
    angel_addr: Option<Result<String, StdError>>,
    collector_addr: Option<Result<String, StdError>>,
    operation_addr: Option<Result<String, StdError>>,
) -> Option<StdError> {
    match (owner, angel_addr, collector_addr, operation_addr) {
        (Some(Err(e)), _, _, _) => Some(e),
        (_, Some(Err(e)), _, _) => Some(e),
        (_, _, Some(Err(e)), _) => Some(e),
        (_, _, _, Some(Err(e))) => Some(e),
        _ => None,
    }
}

fn take_checked(current: String, new: Option<Result<String, StdError>>) -> (res: Result<
    String,
    StdError,
>)
    ensures
        match new {
            Some(Err(e)) => res == Err::<String, StdError>(e),
            _ => res matches Ok(s) && s@ == checked_addr_or(new, current@),
        },
{
    match new {
        None => Ok(current),
        Some(Ok(a)) => Ok(a),
        Some(Err(e)) => Err(e),
    }
}

/// The configuration after an update: refused unless the sender is the owner
/// or when checking a new address failed.
pub open spec fn config_update(
    config: ConfigView,
    sender: Seq<char>,
    owner: Option<Result<String, StdError>>,
    angel_addr: Option<Result<String, StdError>>,
    collector_addr: Option<Result<String, StdError>>,
    operation_addr: Option<Result<String, StdError>>,
    reward_factor_operation: Option<Decimal>,
) -> Result<ConfigView, ContractError> {
    if sender != config.owner {
        Err(ContractError::Unauthorized {  })
    } else {
        match first_failed_check(owner, angel_addr, collector_addr, operation_addr) {
            Some(e) => Err(ContractError::Std(e)),
            None => Ok(
                ConfigView {
                    owner: checked_addr_or(owner, config.owner),
                    angel_addr: checked_addr_or(angel_addr, config.angel_addr),
                    collector_addr: checked_addr_or(collector_addr, config.collector_addr),
                    operation_addr: checked_addr_or(operation_addr, config.operation_addr),
                    reward_factor_operation: match reward_factor_operation {
                        Some(r) => r,
                        None => config.reward_factor_operation,
                    },
                    ..config
                },
            ),
        }
    }
}

/// Replaces the parts of the configuration that are given. Only the owner may.
/// The address arguments are the results of checking the new addresses; the
/// first failed check is the error.
pub fn update_config(
    config: Config,
    sender: &String,
    owner: Option<Result<String, StdError>>,
    angel_addr: Option<Result<String, StdError>>,
    collector_addr: Option<Result<String, StdError>>,
    operation_addr: Option<Result<String, StdError>>,
    reward_factor_operation: Option<Decimal>,
) -> (res: Result<Config, ContractError>)
    ensures
        match config_update(
            config@,
            sender@,
            owner,
            angel_addr,
            collector_addr,
            operation_addr,
            reward_factor_operation,
        ) {
            Ok(v) => res matches Ok(c) && c@ == v,
            Err(e) => res == Err::<Config, ContractError>(e),
        },
{
    if *sender != config.owner {
        return Err(ContractError::Unauthorized {  });
    }
    let Config {
        owner: cur_owner,
        angel_addr: cur_angel,
        operation_addr: cur_operation,
        collector_addr: cur_collector,
        reward_factor_operation: cur_factor,
        reward_factor_collector,
    } = config;
    let owner = match take_checked(cur_owner, owner) {
        Ok(a) => a,
        Err(e) => return Err(ContractError::Std(e)),
    };
    let angel_addr = match take_checked(cur_angel, angel_addr) {
        Ok(a) => a,
        Err(e) => return Err(ContractError::Std(e)),
    };
    let collector_addr = match take_checked(cur_collector, collector_addr) {
        Ok(a) => a,
        Err(e) => return Err(ContractError::Std(e)),
    };
    let operation_addr = match take_checked(cur_operation, operation_addr) {
        Ok(a) => a,
        Err(e) => return Err(ContractError::Std(e)),
    };
    let reward_factor_operation = match reward_factor_operation {
        Some(r) => r,
        None => cur_factor,
    };
    Ok(Config {
        owner,
        angel_addr,
        operation_addr,
        collector_addr,
        reward_factor_operation,
        reward_factor_collector,
    })
}

/// The answer to a withdrawal: the receiver and the whole balance.
pub open spec fn withdrawal(
    config: ConfigView,
    sender: Seq<char>,
    balance: Result<u128, StdError>,
    receiver: Result<String, StdError>,
) -> Result<(String, u128), ContractError> {
    if sender != config.owner {
        Err(ContractError::Unauthorized {  })
    } else {
        match (balance, receiver) {
            (Err(e), _) => Err(ContractError::Std(e)),
            (Ok(_), Err(e)) => Err(ContractError::Std(e)),
            (Ok(b), Ok(r)) => Ok((r, b)),
        }
    }
}

/// Decides a withdrawal of the whole balance of a token. Only the owner may.
/// `balance` is the result of querying the contract's balance and `receiver`
/// the result of checking the receiver's address, in that order. Returns the
/// receiver and the amount to send.
pub fn withdraw(
    config: &Config,
    sender: &String,
    balance: Result<u128, StdError>,
    receiver: Result<String, StdError>,
) -> (res: Result<(String, u128), ContractError>)
    ensures
        res == withdrawal(config@, sender@, balance, receiver),
{
    if *sender != config.owner {
        return Err(ContractError::Unauthorized {  });
    }
    let amount = match balance {
        Ok(b) => b,
        Err(e) => return Err(ContractError::Std(e)),
    };
    let receiver = match receiver {
        Ok(r) => r,
        Err(e) => return Err(ContractError::Std(e)),
    };
    Ok((receiver, amount))
}

/// How a distribution splits the balance.
#[derive(Clone, Copy, Debug, PartialEq, Eq, Structural)]
pub struct Shares {
    pub operations_amount: u128,
    pub collector_amount: u128,
    pub angel_amount: u128,
}

/// The operations and collector shares of `amount`; the angel gets the rest.
pub open spec fn operations_share(config: ConfigView, amount: u128) -> int {
    decimal_mul_spec(amount, config.reward_factor_operation)
}

pub open spec fn collector_share(config: ConfigView, amount: u128) -> int {
    decimal_mul_spec(amount, config.reward_factor_collector)
}

/// The totals after the angel received `angel` of `denom`: only UST and LUNA
/// are counted.
pub open spec fn accumulate(state: StateData, denom: Seq<char>, angel: int) -> StateData {
    if denom == "uusd"@ {
        StateData { accumulated_angel_amount_ust: (state.accumulated_angel_amount_ust + angel) as u128, ..state }
    } else if denom == "uluna"@ {
        StateData { accumulated_angel_amount_luna: (state.accumulated_angel_amount_luna + angel) as u128, ..state }
    } else {
        state
    }
}

/// Distributing panics when the two shares exceed the balance, or when the
/// angel's total overflows.
pub open spec fn distribute_panics_spec(
    config: ConfigView,
    state: StateData,
    sender: Seq<char>,
    denom: Seq<char>,
    balance: Result<u128, StdError>,
) -> bool {
    &&& sender == config.owner
    &&& balance is Ok
    &&& {
        let amount = balance->Ok_0;
        let ops = operations_share(config, amount);
        let coll = collector_share(config, amount);
        ||| ops + coll > amount
        ||| (denom == "uusd"@ && state.accumulated_angel_amount_ust + (amount - ops - coll) > u128::MAX)
        ||| (denom == "uluna"@ && state.accumulated_angel_amount_luna + (amount - ops - coll) > u128::MAX)
    }
}

/// The answer to a distribution: the new totals and the three shares.
pub open spec fn distribution(
    config: ConfigView,
    state: StateData,
    sender: Seq<char>,
    denom: Seq<char>,
    balance: Result<u128, StdError>,
) -> Result<(StateData, Shares), ContractError> {
    if sender != config.owner {
        Err(ContractError::Unauthorized {  })
    } else {
        match balance {
            Err(e) => Err(ContractError::Std(e)),
            Ok(amount) => {
                let ops = operations_share(config, amount);
                let coll = collector_share(config, amount);
                let angel = amount - ops - coll;
                Ok(
                    (
                        accumulate(state, denom, angel),
                        Shares {
                            operations_amount: ops as u128,
                            collector_amount: coll as u128,
                            angel_amount: angel as u128,
                        },
                    ),
                )
            },
        }
    }
}

/// Splits the contract's balance of `denom`: `reward_factor_operation` of it
/// to the operations wallet, `reward_factor_collector` to the collector and
/// the rest to the angel, whose total for UST or LUNA grows by its share.
/// Only the owner may. `balance` is the result of querying the balance.
pub fn distribute(
    config: &Config,
    state: StateData,
    sender: &String,
    denom: &String,
    balance: Result<u128, StdError>,
) -> (res: Result<(StateData, Shares), ContractError>)
    requires
        !distribute_panics_spec(config@, state, sender@, denom@, balance),
    ensures
        res == distribution(config@, state, sender@, denom@, balance),
{
    if *sender != config.owner {
        return Err(ContractError::Unauthorized {  });
    }
    let amount = match balance {
        Ok(b) => b,
        Err(e) => return Err(ContractError::Std(e)),
    };
    let operations_amount = decimal_mul(amount, config.reward_factor_operation);
    let collector_amount = decimal_mul(amount, config.reward_factor_collector);
    let angel_amount = amount - operations_amount - collector_amount;
    let mut state = state;
    let uusd = "uusd".to_owned();
    let uluna = "uluna".to_owned();
    if *denom == uusd {
        state.accumulated_angel_amount_ust = state.accumulated_angel_amount_ust + angel_amount;
    } else if *denom == uluna {
        state.accumulated_angel_amount_luna = state.accumulated_angel_amount_luna + angel_amount;
    }
    Ok((state, Shares { operations_amount, collector_amount, angel_amount }))
}

/// Reports whether distributing with these arguments panics.
pub fn distribute_panics(
    config: &Config,
    state: &StateData,
    sender: &String,
    denom: &String,
    balance: &Result<u128, StdError>,
) -> (b: bool)
    ensures
        b == distribute_panics_spec(config@, *state, sender@, denom@, *balance),
{
    if *sender != config.owner {
        return false;
    }
    let amount = match balance {
        Ok(b) => *b,
        Err(_) => return false,
    };
    let ops = match decimal_mul_checked(amount, config.reward_factor_operation) {
        Some(v) => v,
        None => return true,
    };
    let coll = match decimal_mul_checked(amount, config.reward_factor_collector) {
        Some(v) => v,
        None => return true,
    };
    if ops > amount || coll > amount - ops {
        return true;
    }
    let angel = amount - ops - coll;
    let uusd = "uusd".to_owned();
    let uluna = "uluna".to_owned();
    proof {
        reveal_strlit("uusd");
        reveal_strlit("uluna");
        assert("uusd"@[1] != "uluna"@[1]);
    }
    if *denom == uusd {
        state.accumulated_angel_amount_ust.checked_add(angel).is_none()
    } else if *denom == uluna {
        state.accumulated_angel_amount_luna.checked_add(angel).is_none()
    } else {
        false
    }
}

/// The part of the configuration that the config query shows.
pub fn query_config(config: &Config) -> (res: ConfigResponse)
    ensures
        res.owner@ == config@.owner,
        res.angel_addr@ == config@.angel_addr,
        res.operation_addr@ == config@.operation_addr,
        res.reward_factor_operation == config@.reward_factor_operation,
{
    ConfigResponse {
        owner: config.owner.clone(),
        angel_addr: config.angel_addr.clone(),
        operation_addr: config.operation_addr.clone(),
        reward_factor_operation: config.reward_factor_operation,
    }
}

} // verus!
