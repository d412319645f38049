use vstd::prelude::*;
use crate::decimal::{DECIMAL_FRACTIONAL, law_two_shares_within};
use cosmwasm_std::StdError;
use crate::decimal::Decimal;
use crate::distributor::contract::{
    accumulate, collector_share, config_update, distribute_panics_spec, distribution, instantiated,
    operations_share, withdrawal,
};
use crate::distributor::collector::InstantiateMsg;
use crate::distributor::error::ContractError;
use crate::distributor::state::{ConfigView, StateData};

verus! {

/// When the two reward factors add up to at most one, the operations and
/// collector shares never exceed the balance, so the angel's share is never
/// negative.
pub proof fn law_shares_fit(config: ConfigView, amount: u128)
    requires
        config.reward_factor_operation.atomics + config.reward_factor_collector.atomics
            <= DECIMAL_FRACTIONAL,
    ensures
        operations_share(config, amount) + collector_share(config, amount) <= amount,
{
    law_two_shares_within(amount, config.reward_factor_operation, config.reward_factor_collector);
}

/// A distribution hands out exactly the balance: the three shares add up to
/// it.
pub proof fn law_distribution_conserves(config: ConfigView, amount: u128)
    requires
        operations_share(config, amount) + collector_share(config, amount) <= amount,
    ensures
        operations_share(config, amount) + collector_share(config, amount) + (amount
            - operations_share(config, amount) - collector_share(config, amount)) == amount,
        amount - operations_share(config, amount) - collector_share(config, amount) >= 0,
{
}

/// Only UST and LUNA distributions are counted: distributing any other token
/// leaves the totals as they were, and a UST or LUNA distribution changes only
/// its own total.
pub proof fn law_accumulate_per_token(state: StateData, denom: Seq<char>, angel: int)
    requires
        0 <= angel,
        denom == "uusd"@ ==> state.accumulated_angel_amount_ust + angel <= u128::MAX,
        denom == "uluna"@ ==> state.accumulated_angel_amount_luna + angel <= u128::MAX,
    ensures
        denom != "uusd"@ && denom != "uluna"@ ==> accumulate(state, denom, angel) == state,
        denom == "uusd"@ ==> accumulate(state, denom, angel).accumulated_angel_amount_ust
            == state.accumulated_angel_amount_ust + angel && accumulate(
            state,
            denom,
            angel,
        ).accumulated_angel_amount_luna == state.accumulated_angel_amount_luna,
        denom == "uluna"@ ==> accumulate(state, denom, angel).accumulated_angel_amount_luna
            == state.accumulated_angel_amount_luna + angel && accumulate(
            state,
            denom,
            angel,
        ).accumulated_angel_amount_ust == state.accumulated_angel_amount_ust,
{
    reveal_strlit("uusd");
    reveal_strlit("uluna");
    assert("uusd"@[1] != "uluna"@[1]);
}

/// A successful update by the owner sets each address from its own argument
/// when given (the new owner takes over), the operations factor likewise, and
/// leaves the collector factor alone. Anyone else is refused, and a failed
/// address check is the error.
pub proof fn law_config_update_fields(
    config: ConfigView,
    sender: Seq<char>,
    owner: Option<Result<String, StdError>>,
    angel_addr: Option<Result<String, StdError>>,
    collector_addr: Option<Result<String, StdError>>,
    operation_addr: Option<Result<String, StdError>>,
    reward_factor_operation: Option<Decimal>,
)
    ensures
        sender != config.owner ==> config_update(
            config,
            sender,
            owner,
            angel_addr,
            collector_addr,
            operation_addr,
            reward_factor_operation,
        ) == Err::<ConfigView, ContractError>(ContractError::Unauthorized {  }),
        sender == config.owner && owner is Some && owner->0 is Err ==> config_update(
            config,
            sender,
            owner,
            angel_addr,
            collector_addr,
            operation_addr,
            reward_factor_operation,
        ) == Err::<ConfigView, ContractError>(ContractError::Std(owner->0->Err_0)),
        sender == config.owner && !(owner matches Some(Err(_))) && !(angel_addr matches Some(Err(_)))
            && !(collector_addr matches Some(Err(_))) && !(operation_addr matches Some(Err(_)))
            ==> config_update(
            config,
            sender,
            owner,
            angel_addr,
            collector_addr,
            operation_addr,
            reward_factor_operation,
        ) is Ok,
        config_update(config, sender, owner, angel_addr, collector_addr, operation_addr, reward_factor_operation)
            matches Ok(v) ==> {
            &&& (match owner {
                Some(Ok(o)) => v.owner == o@,
                _ => v.owner == config.owner,
            })
            &&& (match angel_addr {
                Some(Ok(a)) => v.angel_addr == a@,
                _ => v.angel_addr == config.angel_addr,
            })
            &&& (match collector_addr {
                Some(Ok(a)) => v.collector_addr == a@,
                _ => v.collector_addr == config.collector_addr,
            })
            &&& (match operation_addr {
                Some(Ok(a)) => v.operation_addr == a@,
                _ => v.operation_addr == config.operation_addr,
            })
            &&& (match reward_factor_operation {
                Some(r) => v.reward_factor_operation == r,
                None => v.reward_factor_operation == config.reward_factor_operation,
            })
            &&& v.reward_factor_collector == config.reward_factor_collector
        },
{
}

/// The operations wallet gets the operations factor of the balance and the
/// collector the collector factor, each rounded down to whole units.
pub proof fn law_distribution_shares(config: ConfigView, amount: u128)
    ensures
        operations_share(config, amount) == (amount as int * config.reward_factor_operation.atomics as int)
            / 1_000_000_000_000_000_000,
        collector_share(config, amount) == (amount as int * config.reward_factor_collector.atomics as int)
            / 1_000_000_000_000_000_000,
{
}

/// A distribution by the owner splits the whole balance: the operations
/// wallet gets its factor of it and the collector its factor, each rounded
/// down, and the angel the rest, which is added to the angel's total for UST
/// or LUNA (other tokens are not counted). Anyone else is refused, and a
/// failed balance query is the error.
pub proof fn law_distribution(
    config: ConfigView,
    state: StateData,
    sender: Seq<char>,
    denom: Seq<char>,
    balance: Result<u128, StdError>,
)
    requires
        balance is Ok ==> operations_share(config, balance->Ok_0) + collector_share(
            config,
            balance->Ok_0,
        ) <= balance->Ok_0,
        balance is Ok && denom == "uusd"@ ==> state.accumulated_angel_amount_ust + balance->Ok_0
            - operations_share(config, balance->Ok_0) - collector_share(config, balance->Ok_0)
            <= u128::MAX,
        balance is Ok && denom == "uluna"@ ==> state.accumulated_angel_amount_luna + balance->Ok_0
            - operations_share(config, balance->Ok_0) - collector_share(config, balance->Ok_0)
            <= u128::MAX,
    ensures
        sender != config.owner ==> distribution(config, state, sender, denom, balance) == Err::<
            (StateData, crate::distributor::contract::Shares),
            ContractError,
        >(ContractError::Unauthorized {  }),
        sender == config.owner && balance is Err ==> distribution(config, state, sender, denom, balance)
            == Err::<(StateData, crate::distributor::contract::Shares), ContractError>(
            ContractError::Std(balance->Err_0),
        ),
        sender == config.owner && balance is Ok ==> distribution(config, state, sender, denom, balance)
            is Ok && {
            let amount = balance->Ok_0;
            let (s, shares) = distribution(config, state, sender, denom, balance)->Ok_0;
            let ops = (amount as int * config.reward_factor_operation.atomics as int)
                / 1_000_000_000_000_000_000;
            let coll = (amount as int * config.reward_factor_collector.atomics as int)
                / 1_000_000_000_000_000_000;
            &&& shares.operations_amount == ops
            &&& shares.collector_amount == coll
            &&& shares.angel_amount == amount - ops - coll
            &&& shares.operations_amount + shares.collector_amount + shares.angel_amount == amount
            &&& s.accumulated_angel_amount_ust == state.accumulated_angel_amount_ust + if denom
                == "uusd"@ {
                shares.angel_amount as int
            } else {
                0
            }
            &&& s.accumulated_angel_amount_luna == state.accumulated_angel_amount_luna + if denom
                == "uluna"@ {
                shares.angel_amount as int
            } else {
                0
            }
        },
{
    if sender == config.owner && balance is Ok {
        let amount = balance->Ok_0;
        let angel = amount - operations_share(config, amount) - collector_share(config, amount);
        law_accumulate_per_token(state, denom, angel);
        reveal_strlit("uusd");
        reveal_strlit("uluna");
        assert("uusd"@[1] != "uluna"@[1]);
    }
}

/// A withdrawal by the owner sends the whole balance to the checked
/// receiver. Anyone else is refused; a failed balance query, then a failed
/// address check, is the error.
pub proof fn law_withdrawal(
    config: ConfigView,
    sender: Seq<char>,
    balance: Result<u128, StdError>,
    receiver: Result<String, StdError>,
)
    ensures
        sender != config.owner ==> withdrawal(config, sender, balance, receiver) == Err::<
            (String, u128),
            ContractError,
        >(ContractError::Unauthorized {  }),
        sender == config.owner && balance is Err ==> withdrawal(config, sender, balance, receiver)
            == Err::<(String, u128), ContractError>(ContractError::Std(balance->Err_0)),
        sender == config.owner && balance is Ok && receiver is Err ==> withdrawal(
            config,
            sender,
            balance,
            receiver,
        ) == Err::<(String, u128), ContractError>(ContractError::Std(receiver->Err_0)),
        sender == config.owner && balance is Ok && receiver is Ok ==> withdrawal(
            config,
            sender,
            balance,
            receiver,
        ) == Ok::<(String, u128), ContractError>((receiver->Ok_0, balance->Ok_0)),
{
}

/// A new distributor is owned by its creator, starts with zero totals, and
/// takes its addresses and factors from the message and the checks; a failed
/// check, the angel's first, is the error.
pub proof fn law_instantiated(
    sender: Seq<char>,
    msg: InstantiateMsg,
    angel_addr: Result<String, StdError>,
    operation_addr: Result<String, StdError>,
)
    ensures
        angel_addr is Err ==> instantiated(sender, msg, angel_addr, operation_addr) == Err::<
            (ConfigView, StateData),
            StdError,
        >(angel_addr->Err_0),
        angel_addr is Ok && operation_addr is Err ==> instantiated(
            sender,
            msg,
            angel_addr,
            operation_addr,
        ) == Err::<(ConfigView, StateData), StdError>(operation_addr->Err_0),
        angel_addr is Ok && operation_addr is Ok ==> instantiated(sender, msg, angel_addr, operation_addr)
            is Ok && {
            let (c, st) = instantiated(sender, msg, angel_addr, operation_addr)->Ok_0;
            &&& c.owner == sender
            &&& c.angel_addr == angel_addr->Ok_0@
            &&& c.operation_addr == operation_addr->Ok_0@
            &&& c.collector_addr == msg.collector_addr@
            &&& c.reward_factor_operation == msg.reward_factor_operation
            &&& c.reward_factor_collector == msg.reward_factor_collector
            &&& st.accumulated_angel_amount_ust == 0
            &&& st.accumulated_angel_amount_luna == 0
        },
{
}

/// A distribution panics exactly when the owner asks and the balance is
/// known, but the two shares exceed it or the angel's UST or LUNA total would
/// overflow.
pub proof fn law_distribution_panics(
    config: ConfigView,
    state: StateData,
    sender: Seq<char>,
    denom: Seq<char>,
    balance: Result<u128, StdError>,
)
    ensures
        distribute_panics_spec(config, state, sender, denom, balance) <==> {
            &&& sender == config.owner
            &&& balance is Ok
            &&& {
                let a = balance->Ok_0;
                let ops = (a as int * config.reward_factor_operation.atomics as int)
                    / 1_000_000_000_000_000_000;
                let coll = (a as int * config.reward_factor_collector.atomics as int)
                    / 1_000_000_000_000_000_000;
                ||| ops + coll > a
                ||| (denom == "uusd"@ && state.accumulated_angel_amount_ust + a - ops - coll > u128::MAX)
                ||| (denom == "uluna"@ && state.accumulated_angel_amount_luna + a - ops - coll
                    > u128::MAX)
            }
        },
{
}

} // verus!
