use cosmwasm_std::StdError;
use pluto::decimal::{decimal_mul_checked, Decimal};
use pluto::distributor::collector::InstantiateMsg;
use pluto::distributor::contract::{
    distribute, distribute_panics, instantiate, query_config, update_config, withdraw,
};
use pluto::distributor::error::ContractError;
use pluto::distributor::state::{Config, StateData};

fn s(x: &str) -> String {
    x.to_string()
}

fn pct(p: u128) -> Decimal {
    Decimal { atomics: p * 10_000_000_000_000_000 }
}

fn config() -> Config {
    Config {
        owner: s("owner"),
        angel_addr: s("angel"),
        operation_addr: s("ops"),
        collector_addr: s("collector"),
        reward_factor_operation: pct(30),
        reward_factor_collector: pct(25),
    }
}

fn zero() -> StateData {
    StateData { accumulated_angel_amount_ust: 0, accumulated_angel_amount_luna: 0 }
}

#[test]
fn distribute_splits_balance() {
    let (state, shares) = distribute(&config(), zero(), &s("owner"), &s("uusd"), Ok(1000)).unwrap();
    assert_eq!(shares.operations_amount, 300);
    assert_eq!(shares.collector_amount, 250);
    assert_eq!(shares.angel_amount, 450);
    assert_eq!(state.accumulated_angel_amount_ust, 450);
    assert_eq!(state.accumulated_angel_amount_luna, 0);
    let (state, shares) = distribute(&config(), state, &s("owner"), &s("uluna"), Ok(999)).unwrap();
    // 999 * 0.30 = 299.7 and 999 * 0.25 = 249.75, both rounded down.
    assert_eq!(shares.operations_amount, 299);
    assert_eq!(shares.collector_amount, 249);
    assert_eq!(shares.angel_amount, 451);
    assert_eq!(state.accumulated_angel_amount_ust, 450);
    assert_eq!(state.accumulated_angel_amount_luna, 451);
    let (state2, shares) = distribute(&config(), state, &s("owner"), &s("ukrw"), Ok(100)).unwrap();
    assert_eq!(shares.angel_amount, 45);
    assert_eq!(state2, state);
}

#[test]
fn distribute_refusals() {
    let r = distribute(&config(), zero(), &s("x"), &s("uusd"), Ok(1000));
    assert!(matches!(r, Err(ContractError::Unauthorized {})));
    let r = distribute(&config(), zero(), &s("owner"), &s("uusd"), Err(StdError::generic_err("no balance")));
    assert!(matches!(r, Err(ContractError::Std(_))));
    let mut greedy = config();
    greedy.reward_factor_collector = pct(80);
    assert!(distribute_panics(&greedy, &zero(), &s("owner"), &s("uusd"), &Ok(1000)));
    assert!(!distribute_panics(&greedy, &zero(), &s("x"), &s("uusd"), &Ok(1000)));
    assert!(!distribute_panics(&config(), &zero(), &s("owner"), &s("uusd"), &Ok(1000)));
    let full = StateData { accumulated_angel_amount_ust: u128::MAX, accumulated_angel_amount_luna: 0 };
    assert!(distribute_panics(&config(), &full, &s("owner"), &s("uusd"), &Ok(1000)));
    assert!(!distribute_panics(&config(), &full, &s("owner"), &s("uluna"), &Ok(1000)));
}

#[test]
fn withdraw_and_config() {
    let r = withdraw(&config(), &s("owner"), Ok(77), Ok(s("dest"))).unwrap();
    assert_eq!(r, (s("dest"), 77));
    assert!(matches!(withdraw(&config(), &s("x"), Ok(77), Ok(s("dest"))), Err(ContractError::Unauthorized {})));
    assert!(matches!(withdraw(&config(), &s("owner"), Ok(77), Err(StdError::generic_err("bad"))), Err(ContractError::Std(_))));
    let c = update_config(config(), &s("owner"), None, Some(Ok(s("angel2"))), None, Some(Ok(s("ops2"))), Some(pct(10))).unwrap();
    assert_eq!(c.angel_addr, "angel2");
    assert_eq!(c.operation_addr, "ops2");
    assert_eq!(c.collector_addr, "collector");
    assert_eq!(c.reward_factor_operation, pct(10));
    assert_eq!(c.reward_factor_collector, pct(25));
    let r = update_config(config(), &s("owner"), None, None, Some(Err(StdError::generic_err("bad"))), None, None);
    assert!(matches!(r, Err(ContractError::Std(_))));
    let r = update_config(config(), &s("angel"), None, None, None, None, None);
    assert!(matches!(r, Err(ContractError::Unauthorized {})));
    let q = query_config(&config());
    assert_eq!(q.owner, "owner");
    assert_eq!(q.reward_factor_operation, pct(30));
    let msg = InstantiateMsg {
        angel_addr: s("angel"),
        operation_addr: s("ops"),
        reward_factor_operation: pct(30),
        collector_addr: s("collector"),
        reward_factor_collector: pct(25),
    };
    let (c, st) = instantiate(&s("owner"), &msg, Ok(s("angel")), Ok(s("ops"))).unwrap();
    assert_eq!(c.owner, "owner");
    assert_eq!(c.collector_addr, "collector");
    assert_eq!(st, zero());
}

#[test]
fn checked_decimal_products() {
    let one = Decimal { atomics: 1_000_000_000_000_000_000 };
    assert_eq!(decimal_mul_checked(u128::MAX, one), Some(u128::MAX));
    assert_eq!(decimal_mul_checked(u128::MAX, pct(50)), Some(u128::MAX / 2));
    assert_eq!(decimal_mul_checked(u128::MAX, Decimal { atomics: 2_000_000_000_000_000_000 }), None);
    assert_eq!(decimal_mul_checked(3, Decimal { atomics: 333_333_333_333_333_333 }), Some(0));
    assert_eq!(decimal_mul_checked(1_000_000_000_000_000_000, Decimal { atomics: 7 }), Some(7));
}

#[test]
fn angel_totals_grow_by_what_the_angel_received() {
    let mut config = config();
    let mut state = zero();
    let mut ust_paid = 0u128;
    let mut luna_paid = 0u128;
    for (sender, denom, balance) in [
        ("owner", "uusd", 1000u128),
        ("x", "uusd", 5000),
        ("owner", "uluna", 999),
        ("owner", "ukrw", 100),
        ("owner", "uusd", 10),
    ] {
        let before = state;
        match distribute(&config, state, &s(sender), &s(denom), Ok(balance)) {
            Ok((next, shares)) => {
                if denom == "uusd" {
                    ust_paid += shares.angel_amount;
                } else if denom == "uluna" {
                    luna_paid += shares.angel_amount;
                }
                state = next;
            }
            Err(_) => assert_eq!(state, before),
        }
        assert!(state.accumulated_angel_amount_ust >= before.accumulated_angel_amount_ust);
        assert!(state.accumulated_angel_amount_luna >= before.accumulated_angel_amount_luna);
        // A configuration update and a withdrawal leave the totals alone.
        config = update_config(config, &s("owner"), None, None, None, None, Some(pct(20))).unwrap();
        assert!(withdraw(&config, &s("owner"), Ok(7), Ok(s("owner"))).is_ok());
    }
    assert_eq!(state.accumulated_angel_amount_ust, ust_paid);
    assert_eq!(state.accumulated_angel_amount_luna, luna_paid);
    // 1000 at 30%/25% leaves 450; 10 at 20%/25% leaves 10 - 2 - 2.
    assert_eq!(ust_paid, 450 + 6);
    assert_eq!(luna_paid, 551);
}
