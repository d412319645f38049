//! What the distributor keeps between calls, and how each call changes it:
//! the entry points store exactly what the functions of `contract` return, and
//! a call that fails or panics changes nothing. Withdrawals and queries store
//! nothing.
use vstd::prelude::*;
use cosmwasm_std::StdError;
use crate::decimal::Decimal;
use crate::distributor::contract::{
    collector_share, config_update, distribute_panics_spec, distribution, operations_share,
};
use crate::distributor::laws::law_accumulate_per_token;
use crate::distributor::state::{ConfigView, StateData};

verus! {

/// The distributor's storage: its configuration and the angel's totals.
pub struct DistributorWorld {
    pub config: ConfigView,
    pub state: StateData,
}

/// One call of an entry point, by `sender`. `balance` is what querying the
/// contract's balance gave, and new addresses are given as the results of
/// checking them. `settled` says whether the rest of a distribution's
/// transaction, building the payments, succeeded; when it does not, the whole
/// transaction is undone.
pub enum DistributorCall {
    Distribute { sender: Seq<char>, denom: Seq<char>, balance: Result<u128, StdError>, settled: bool },
    Withdraw { sender: Seq<char>, denom: Seq<char> },
    UpdateConfig {
        sender: Seq<char>,
        owner: Option<Result<String, StdError>>,
        angel_addr: Option<Result<String, StdError>>,
        collector_addr: Option<Result<String, StdError>>,
        operation_addr: Option<Result<String, StdError>>,
        reward_factor_operation: Option<Decimal>,
    },
}

/// What the angel receives when `amount` is distributed.
pub open spec fn angel_share(config: ConfigView, amount: u128) -> int {
    amount - operations_share(config, amount) - collector_share(config, amount)
}

/// The call is a distribution that goes through.
pub open spec fn distributes(w: DistributorWorld, c: DistributorCall) -> bool {
    match c {
        DistributorCall::Distribute { sender, denom, balance, settled } => {
            &&& settled
            &&& sender == w.config.owner
            &&& balance is Ok
            &&& !distribute_panics_spec(w.config, w.state, sender, denom, balance)
        },
        _ => false,
    }
}

/// The storage after one call.
pub open spec fn distributor_step(w: DistributorWorld, c: DistributorCall) -> DistributorWorld {
    match c {
        DistributorCall::Distribute { sender, denom, balance, .. } => if distributes(w, c) {
            match distribution(w.config, w.state, sender, denom, balance) {
                Ok((s, _)) => DistributorWorld { state: s, ..w },
                Err(_) => w,
            }
        } else {
            w
        },
        DistributorCall::Withdraw { .. } => w,
        DistributorCall::UpdateConfig {
            sender,
            owner,
            angel_addr,
            collector_addr,
            operation_addr,
            reward_factor_operation,
        } => match config_update(
            w.config,
            sender,
            owner,
            angel_addr,
            collector_addr,
            operation_addr,
            reward_factor_operation,
        ) {
            Ok(v) => DistributorWorld { config: v, ..w },
            Err(_) => w,
        },
    }
}

/// The storage after the calls, first to last.
pub open spec fn distributor_run(w: DistributorWorld, calls: Seq<DistributorCall>) -> DistributorWorld
    decreases calls.len(),
{
    if calls.len() == 0 {
        w
    } else {
        distributor_run(distributor_step(w, calls[0]), calls.drop_first())
    }
}

/// What the angel received of `denom` from the call.
pub open spec fn angel_paid(w: DistributorWorld, c: DistributorCall, denom: Seq<char>) -> int {
    if distributes(w, c) && c->Distribute_denom == denom {
        angel_share(w.config, c->Distribute_balance->Ok_0)
    } else {
        0
    }
}

/// What the angel received of `denom` from the calls, in total.
pub open spec fn angel_paid_total(
    w: DistributorWorld,
    calls: Seq<DistributorCall>,
    denom: Seq<char>,
) -> int
    decreases calls.len(),
{
    if calls.len() == 0 {
        0
    } else {
        angel_paid(w, calls[0], denom) + angel_paid_total(
            distributor_step(w, calls[0]),
            calls.drop_first(),
            denom,
        )
    }
}

/// One call adds to each total exactly what the angel received of that token
/// in it, which is never negative.
pub proof fn law_step_accumulates(w: DistributorWorld, c: DistributorCall)
    ensures
        distributor_step(w, c).state.accumulated_angel_amount_ust
            == w.state.accumulated_angel_amount_ust + angel_paid(w, c, "uusd"@),
        distributor_step(w, c).state.accumulated_angel_amount_luna
            == w.state.accumulated_angel_amount_luna + angel_paid(w, c, "uluna"@),
        angel_paid(w, c, "uusd"@) >= 0,
        angel_paid(w, c, "uluna"@) >= 0,
{
    reveal_strlit("uusd");
    reveal_strlit("uluna");
    assert("uusd"@[1] != "uluna"@[1]);
    if distributes(w, c) {
        let denom = c->Distribute_denom;
        let angel = angel_share(w.config, c->Distribute_balance->Ok_0);
        law_accumulate_per_token(w.state, denom, angel);
    }
}

/// Over any sequence of distributions, withdrawals and configuration updates,
/// each of the angel's totals grows by exactly what the angel received of that
/// token in the distributions that went through, and so never decreases.
pub proof fn law_run_accumulates(w: DistributorWorld, calls: Seq<DistributorCall>)
    ensures
        distributor_run(w, calls).state.accumulated_angel_amount_ust
            == w.state.accumulated_angel_amount_ust + angel_paid_total(w, calls, "uusd"@),
        distributor_run(w, calls).state.accumulated_angel_amount_luna
            == w.state.accumulated_angel_amount_luna + angel_paid_total(w, calls, "uluna"@),
        angel_paid_total(w, calls, "uusd"@) >= 0,
        angel_paid_total(w, calls, "uluna"@) >= 0,
    decreases calls.len(),
{
    if calls.len() > 0 {
        let w1 = distributor_step(w, calls[0]);
        law_step_accumulates(w, calls[0]);
        law_run_accumulates(w1, calls.drop_first());
        assert(distributor_run(w, calls) == distributor_run(w1, calls.drop_first()));
    }
}

} // verus!
