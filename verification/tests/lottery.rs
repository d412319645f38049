use cosmwasm_std::StdError;
use pluto::decimal::Decimal;
use pluto::lottery::contract::{
    add_new_lottery, add_player_dailydraw, add_player_dailydraw_panics, add_player_fastdraw,
    add_player_fastdraw_panics, instantiate, remove_lottery, reward_winner, reward_winner_panics,
    update_config,
};
use pluto::lottery::error::ContractError;
use pluto::lottery::msg::{InstantiateMsg, NewLotteryMsg};
use pluto::lottery::state::{Coin, Lottery, LotteryType, Player, State};

fn pct(hundredths: u128) -> Decimal {
    Decimal { atomics: hundredths * 10_000_000_000_000_000 }
}

fn s(x: &str) -> String {
    x.to_string()
}

fn init_msg() -> InstantiateMsg {
    InstantiateMsg {
        distribution_addr: s("distribution_addr"),
        winner_handler: s("ad"),
        percent_to_distributor: pct(15),
        percent_to_jackpot: pct(5),
    }
}

fn instantiated(sender: &str) -> State {
    instantiate(&s(sender), &init_msg(), Ok(s("ad")), Ok(s("distribution_addr"))).unwrap()
}

fn coins(denom: &str, amount: u128) -> Vec<Coin> {
    vec![Coin { denom: s(denom), amount }]
}

fn lottery(id: u64, kind: LotteryType, fee: Option<u128>, jackpot: Option<u64>) -> Lottery {
    Lottery {
        id,
        entry_fee: fee,
        denom: s("uusd"),
        lottery_type: kind,
        staked_tokens: 0,
        latest_winner: None,
        jackpot_lottery_id: jackpot,
        players: vec![],
        round_id: 0,
    }
}

fn player(addr: &str, tickets: i32, num: i32) -> Player {
    Player { addr: s(addr), tickets_count: tickets, ticket_num: num }
}

#[test]
fn proper_init() {
    let msg = InstantiateMsg {
        distribution_addr: s("distribution_addr"),
        winner_handler: s("ad"),
        percent_to_distributor: Decimal { atomics: 150_000_000_000_000_000 },
        percent_to_jackpot: Decimal { atomics: 50_000_000_000_000_000 },
    };
    instantiate(&s("addr1"), &msg, Ok(s("ad")), Ok(s("distribution_addr"))).unwrap();
}

#[test]
fn find_daily_winner() {
    let state = instantiated("addr1");

    let jackpot = NewLotteryMsg {
        denom: s("uusd"),
        lottery_type: LotteryType::Jackpot,
        jackpot_lottery_id: None,
        entry_fee: None,
    };
    let (state, jackpot_lottery) = add_new_lottery(state, &s("addr1"), jackpot, None).unwrap();

    let daily = NewLotteryMsg {
        denom: s("uusd"),
        lottery_type: LotteryType::Daily,
        jackpot_lottery_id: Some(1),
        entry_fee: Some(1000000),
    };
    let (state, daily_lottery) =
        add_new_lottery(state, &s("addr1"), daily, Some(Ok(jackpot_lottery.clone()))).unwrap();

    let daily_lottery =
        add_player_dailydraw(daily_lottery, &s("addr2"), &coins("uusd", 1000000), 1).unwrap();
    let daily_lottery =
        add_player_dailydraw(daily_lottery, &s("addr3"), &coins("uusd", 3000000), 3).unwrap();

    println!("{:?}", vec![&jackpot_lottery, &daily_lottery]);

    let outcome = reward_winner(
        &state,
        &s("addr1"),
        Ok(daily_lottery),
        Some(Ok(jackpot_lottery)),
        12_345,
        1_571_797_419,
    )
    .unwrap();
    println!("{:?} {}", outcome.lottery, outcome.final_amount);
}

#[test]
fn daily_draw_winner_and_payouts() {
    let state = instantiated("addr1");
    let (state, jackpot_lottery) = add_new_lottery(
        state,
        &s("addr1"),
        NewLotteryMsg { denom: s("uusd"), lottery_type: LotteryType::Jackpot, jackpot_lottery_id: None, entry_fee: None },
        None,
    )
    .unwrap();
    assert_eq!(jackpot_lottery.id, 1);
    let (state, daily) = add_new_lottery(
        state,
        &s("addr1"),
        NewLotteryMsg {
            denom: s("uusd"),
            lottery_type: LotteryType::Daily,
            jackpot_lottery_id: Some(1),
            entry_fee: Some(1000000),
        },
        Some(Ok(jackpot_lottery.clone())),
    )
    .unwrap();
    assert_eq!(daily.id, 2);
    assert_eq!(state.lottery_count, 2);
    let daily = add_player_dailydraw(daily, &s("addr2"), &coins("uusd", 1000000), 1).unwrap();
    let daily = add_player_dailydraw(daily, &s("addr3"), &coins("uusd", 3000000), 3).unwrap();
    assert_eq!(daily.staked_tokens, 4000000);
    let o = reward_winner(&state, &s("addr1"), Ok(daily), Some(Ok(jackpot_lottery)), 12_345, 1_571_797_419)
        .unwrap();
    // (12345 + 1571797419) % 4 == 0, which addr2's single ticket holds.
    assert_eq!(o.random_num, 0);
    assert_eq!(o.tickets_sum, 4);
    assert_eq!(o.winner, "addr2");
    assert_eq!(o.primary_amount, 4000000);
    assert_eq!(o.amount_to_distributor, 600000);
    assert_eq!(o.final_amount, 3200000);
    // The prize, the distributor's share and the jackpot's share make up the stake.
    assert_eq!(o.final_amount + o.amount_to_distributor + 200000, o.primary_amount);
    assert_eq!(o.prev_round_id, 0);
    assert_eq!(o.lottery.round_id, 1);
    assert_eq!(o.lottery.staked_tokens, 0);
    assert!(o.lottery.players.is_empty());
    assert_eq!(o.lottery.latest_winner, Some(s("addr2")));
    let j = o.jackpot.unwrap();
    assert_eq!(j.staked_tokens, 200000);
    assert_eq!(j.players.len(), 1);
    assert_eq!(j.players[0].addr, "addr2");
    assert_eq!(j.players[0].tickets_count, 1);
    assert_eq!(j.players[0].ticket_num, 1);
}

#[test]
fn draw_picks_player_holding_number() {
    let state = instantiated("owner");
    let mut daily = lottery(2, LotteryType::Daily, Some(2000000), Some(1));
    daily.players = vec![player("a", 2, 1), player("b", 3, 2), player("c", 5, 3)];
    daily.staked_tokens = 20000000;
    let mut jackpot = lottery(1, LotteryType::Jackpot, None, None);
    jackpot.players = vec![player("x", 7, 1), player("b", 1, 2)];
    jackpot.staked_tokens = 10;
    // 10 tickets: a holds 0..2, b holds 2..5, c holds 5..10; 100 + 4 = 104 -> 4.
    let o = reward_winner(&state, &s("ad"), Ok(daily.clone()), Some(Ok(jackpot.clone())), 100, 4).unwrap();
    assert_eq!(o.random_num, 4);
    assert_eq!(o.winner, "b");
    assert_eq!(o.amount_to_distributor, 3000000);
    assert_eq!(o.final_amount, 16000000);
    let j = o.jackpot.unwrap();
    assert_eq!(j.staked_tokens, 1000010);
    // b had 3 tickets, at 2 whole tokens each: 6 jackpot tickets added.
    assert_eq!(j.players[1].tickets_count, 7);
    assert_eq!(j.players.len(), 2);
    let o = reward_winner(&state, &s("ad"), Ok(daily.clone()), Some(Ok(jackpot.clone())), 100, 0).unwrap();
    assert_eq!(o.winner, "a");
    let o = reward_winner(&state, &s("ad"), Ok(daily), Some(Ok(jackpot)), 100, 9).unwrap();
    assert_eq!(o.winner, "c");
}

#[test]
fn fast_draw_winner_gets_a_jackpot_ticket_per_token() {
    let state = instantiated("owner");
    let mut fast = lottery(3, LotteryType::Fast, Some(5000000), Some(1));
    for who in ["a", "b", "c", "d", "e"] {
        fast = add_player_fastdraw(fast, &s(who), &coins("uusd", 5000000)).unwrap();
    }
    let jackpot = lottery(1, LotteryType::Jackpot, None, None);
    // 7 + 0 = 7, and 7 % 5 == 2: the third player wins.
    let o = reward_winner(&state, &s("owner"), Ok(fast), Some(Ok(jackpot)), 7, 0).unwrap();
    assert_eq!(o.winner, "c");
    assert_eq!(o.primary_amount, 25000000);
    assert_eq!(o.amount_to_distributor, 3750000);
    assert_eq!(o.final_amount, 20000000);
    let j = o.jackpot.unwrap();
    assert_eq!(j.staked_tokens, 1250000);
    assert_eq!(j.players.len(), 1);
    assert_eq!(j.players[0].addr, "c");
    assert_eq!(j.players[0].tickets_count, 5);
}

#[test]
fn jackpot_draw_keeps_whole_prize_minus_distribution() {
    let state = instantiated("owner");
    let mut jackpot = lottery(1, LotteryType::Jackpot, None, None);
    jackpot.players = vec![player("x", 7, 1)];
    jackpot.staked_tokens = 1000;
    let o = reward_winner(&state, &s("owner"), Ok(jackpot), None, 1, 1).unwrap();
    assert_eq!(o.winner, "x");
    assert_eq!(o.amount_to_distributor, 150);
    assert_eq!(o.final_amount, 850);
    assert!(o.jackpot.is_none());
}

#[test]
fn reward_refusals() {
    let state = instantiated("owner");
    let mut fast = lottery(3, LotteryType::Fast, Some(10), Some(1));
    fast.players = vec![player("a", 1, 1), player("b", 1, 2)];
    let r = reward_winner(&state, &s("stranger"), Ok(fast.clone()), Some(Ok(lottery(1, LotteryType::Jackpot, None, None))), 1, 1);
    assert!(matches!(r, Err(ContractError::Unauthorized {})));
    let r = reward_winner(&state, &s("owner"), Ok(fast.clone()), Some(Ok(lottery(1, LotteryType::Jackpot, None, None))), 1, 1);
    assert!(matches!(r, Err(ContractError::NotEnoughPlayers {})));
    let empty = lottery(4, LotteryType::Jackpot, None, None);
    let r = reward_winner(&state, &s("owner"), Ok(empty), None, 1, 1);
    assert!(matches!(r, Err(ContractError::NotEnoughPlayers {})));
    let r = reward_winner(&state, &s("owner"), Err(StdError::not_found("lottery")), None, 1, 1);
    assert!(matches!(r, Err(ContractError::Std(StdError::NotFound { .. }))));
    let mut daily = lottery(2, LotteryType::Daily, Some(10), Some(1));
    daily.players = vec![player("a", 1, 1)];
    daily.staked_tokens = 10;
    let r = reward_winner(&state, &s("ad"), Ok(daily), Some(Err(StdError::not_found("jackpot"))), 1, 1);
    assert!(matches!(r, Err(ContractError::Std(StdError::NotFound { .. }))));
}

#[test]
fn reward_panic_report() {
    let state = instantiated("owner");
    let mut daily = lottery(2, LotteryType::Daily, Some(10), Some(1));
    daily.players = vec![player("a", 1, 1)];
    daily.staked_tokens = 10;
    let jackpot = Some(Ok(lottery(1, LotteryType::Jackpot, None, None)));
    assert!(!reward_winner_panics(&state, &s("owner"), &Ok(daily.clone()), &jackpot, 1, 1));
    // The next round number would overflow.
    let mut last_round = daily.clone();
    last_round.round_id = i32::MAX;
    assert!(reward_winner_panics(&state, &s("owner"), &Ok(last_round), &jackpot, 1, 1));
    // Shares that add up to more than the stake.
    let mut greedy = state.clone();
    greedy.percent_to_distributor = pct(90);
    greedy.percent_to_jackpot = pct(20);
    assert!(reward_winner_panics(&greedy, &s("owner"), &Ok(daily.clone()), &jackpot, 1, 1));
    // Tickets whose total overflows an i32.
    let mut huge = daily.clone();
    huge.players = vec![player("a", i32::MAX, 1), player("b", 1, 2)];
    assert!(reward_winner_panics(&state, &s("owner"), &Ok(huge), &jackpot, 1, 1));
    // A negative ticket count leaves an empty range, and the draw still finds a winner.
    let mut odd = daily.clone();
    odd.players = vec![player("a", 2, 1), player("b", -1, 2), player("c", 1, 3)];
    assert!(!reward_winner_panics(&state, &s("owner"), &Ok(odd.clone()), &jackpot, 0, 1));
    // Refused requests do not panic.
    assert!(!reward_winner_panics(&state, &s("stranger"), &Ok(daily), &jackpot, 1, 1));
}

#[test]
fn new_lottery_rules() {
    let state = instantiated("owner");
    let jackpot_msg = NewLotteryMsg { denom: s("uusd"), lottery_type: LotteryType::Jackpot, jackpot_lottery_id: None, entry_fee: None };
    let r = add_new_lottery(state.clone(), &s("other"), jackpot_msg.clone(), None);
    assert!(matches!(r, Err(ContractError::Unauthorized {})));
    let with_fee = NewLotteryMsg { entry_fee: Some(5), ..jackpot_msg.clone() };
    let r = add_new_lottery(state.clone(), &s("owner"), with_fee, None);
    assert!(matches!(r, Err(ContractError::JackpotCrateFailed {})));
    let fast_without = NewLotteryMsg { lottery_type: LotteryType::Fast, entry_fee: Some(5), ..jackpot_msg.clone() };
    let r = add_new_lottery(state.clone(), &s("owner"), fast_without, None);
    assert!(matches!(r, Err(ContractError::JackpotLotteryNotFound {})));
    let fast = NewLotteryMsg { lottery_type: LotteryType::Fast, entry_fee: Some(5), jackpot_lottery_id: Some(1), denom: s("uusd") };
    let r = add_new_lottery(state.clone(), &s("owner"), fast.clone(), Some(Ok(lottery(1, LotteryType::Daily, Some(1), Some(9)))));
    assert!(matches!(r, Err(ContractError::JackpotCrateFailed {})));
    let mut luna_jackpot = lottery(1, LotteryType::Jackpot, None, None);
    luna_jackpot.denom = s("uluna");
    let r = add_new_lottery(state.clone(), &s("owner"), fast.clone(), Some(Ok(luna_jackpot)));
    assert!(matches!(r, Err(ContractError::WrongDenom {})));
    let r = add_new_lottery(state.clone(), &s("owner"), fast.clone(), Some(Err(StdError::not_found("lottery"))));
    assert!(matches!(r, Err(ContractError::Std(_))));
    let (state2, l) = add_new_lottery(state.clone(), &s("owner"), fast, Some(Ok(lottery(1, LotteryType::Jackpot, None, None)))).unwrap();
    assert_eq!(state2.lottery_count, 1);
    assert_eq!(l.id, 1);
    assert_eq!(l.entry_fee, Some(5));
    assert_eq!(l.jackpot_lottery_id, Some(1));
    assert_eq!(l.round_id, 0);
    assert!(remove_lottery(&state, &s("owner"), 1).is_ok());
    assert!(matches!(remove_lottery(&state, &s("other"), 1), Err(ContractError::Unauthorized {})));
}

#[test]
fn fast_draw_rules() {
    let mut fast = lottery(3, LotteryType::Fast, Some(10), Some(1));
    let r = add_player_fastdraw(lottery(2, LotteryType::Daily, Some(10), Some(1)), &s("a"), &coins("uusd", 10));
    assert!(matches!(r, Err(ContractError::Unauthorized {})));
    for (i, who) in ["a", "b", "c", "d", "e"].iter().enumerate() {
        assert!(!add_player_fastdraw_panics(&fast, &s(who), &coins("uusd", 10)));
        fast = add_player_fastdraw(fast, &s(who), &coins("uusd", 10)).unwrap();
        assert_eq!(fast.players[i].ticket_num, i as i32 + 1);
        assert_eq!(fast.players[i].tickets_count, 1);
    }
    assert_eq!(fast.staked_tokens, 50);
    let r = add_player_fastdraw(fast.clone(), &s("f"), &coins("uusd", 10));
    assert!(matches!(r, Err(ContractError::ContractFull {})));
    let mut two = lottery(3, LotteryType::Fast, Some(10), Some(1));
    two = add_player_fastdraw(two, &s("a"), &coins("uusd", 10)).unwrap();
    let r = add_player_fastdraw(two.clone(), &s("a"), &coins("uusd", 10));
    assert!(matches!(r, Err(ContractError::AlreadyExist {})));
    for funds in [vec![], coins("uusd", 9), coins("uluna", 10), [coins("uusd", 10), coins("uusd", 10)].concat()] {
        let r = add_player_fastdraw(two.clone(), &s("b"), &funds);
        assert!(matches!(r, Err(ContractError::WrongFunds {})));
    }
    // No entry fee: the price cannot be read.
    let no_fee = lottery(3, LotteryType::Fast, None, Some(1));
    assert!(add_player_fastdraw_panics(&no_fee, &s("a"), &coins("uusd", 10)));
    assert!(!add_player_fastdraw_panics(&no_fee, &s("a"), &vec![]));
}

#[test]
fn daily_draw_rules() {
    let daily = lottery(2, LotteryType::Daily, Some(10), Some(1));
    let r = add_player_dailydraw(lottery(3, LotteryType::Fast, Some(10), Some(1)), &s("a"), &coins("uusd", 10), 1);
    assert!(matches!(r, Err(ContractError::Unauthorized {})));
    let r = add_player_dailydraw(daily.clone(), &s("a"), &coins("uusd", 10), 2);
    assert!(matches!(r, Err(ContractError::WrongFunds {})));
    let d = add_player_dailydraw(daily, &s("a"), &coins("uusd", 20), 2).unwrap();
    let d = add_player_dailydraw(d, &s("b"), &coins("uusd", 10), 1).unwrap();
    let d = add_player_dailydraw(d, &s("a"), &coins("uusd", 30), 3).unwrap();
    assert_eq!(d.players.len(), 2);
    assert_eq!(d.players[0].tickets_count, 5);
    assert_eq!(d.players[0].ticket_num, 1);
    assert_eq!(d.players[1].tickets_count, 1);
    assert_eq!(d.players[1].ticket_num, 2);
    assert_eq!(d.staked_tokens, 60);
    // 2^32 tickets are paid in full but counted as 0.
    let big = add_player_dailydraw(lottery(2, LotteryType::Daily, Some(1), Some(1)), &s("z"), &coins("uusd", 1 << 32), 1 << 32).unwrap();
    assert_eq!(big.players[0].tickets_count, 0);
    assert_eq!(big.staked_tokens, 1 << 32);
    // A price that overflows.
    let dear = lottery(2, LotteryType::Daily, Some(u128::MAX), Some(1));
    assert!(add_player_dailydraw_panics(&dear, &s("a"), &coins("uusd", 1), 2));
    let mut full = lottery(2, LotteryType::Daily, Some(1), Some(1));
    full.players = vec![player("a", i32::MAX, 1)];
    assert!(add_player_dailydraw_panics(&full, &s("a"), &coins("uusd", 1), 1));
    assert!(!add_player_dailydraw_panics(&full, &s("b"), &coins("uusd", 1), 1));
}

#[test]
fn config_updates() {
    let state = instantiated("owner");
    let r = update_config(state.clone(), &s("x"), None, None, None, None);
    assert!(matches!(r, Err(ContractError::Unauthorized {})));
    let r = update_config(state.clone(), &s("owner"), Some(Err(StdError::generic_err("bad"))), None, None, None);
    assert!(matches!(r, Err(ContractError::Std(_))));
    let r = update_config(state.clone(), &s("owner"), Some(Ok(s("new"))), None, Some(pct(20)), None).unwrap();
    assert_eq!(r.owner, "new");
    assert_eq!(r.distribution_addr, "distribution_addr");
    assert_eq!(r.percent_to_distributor, pct(20));
    assert_eq!(r.percent_to_jackpot, pct(5));
    let e = instantiate(&s("a"), &init_msg(), Err(StdError::generic_err("short")), Ok(s("d")));
    assert!(e.is_err());
}

#[test]
fn removed_lottery_ids_are_not_reused() {
    let state = instantiated("owner");
    let jackpot_msg = NewLotteryMsg { denom: s("uusd"), lottery_type: LotteryType::Jackpot, jackpot_lottery_id: None, entry_fee: None };
    let (state, first) = add_new_lottery(state, &s("owner"), jackpot_msg.clone(), None).unwrap();
    assert_eq!(first.id, 1);
    assert!(remove_lottery(&state, &s("owner"), first.id).is_ok());
    let (state, second) = add_new_lottery(state, &s("owner"), jackpot_msg.clone(), None).unwrap();
    assert_eq!(second.id, 2);
    assert_eq!(state.lottery_count, 2);
    // A refused request leaves the count alone.
    assert!(add_new_lottery(state.clone(), &s("other"), jackpot_msg, None).is_err());
    assert_eq!(state.lottery_count, 2);
}

#[test]
fn two_daily_purchases_equal_one_combined() {
    let mut start = lottery(2, LotteryType::Daily, Some(10), Some(1));
    start.players = vec![player("b", 4, 1)];
    start.staked_tokens = 40;
    for who in ["a", "b"] {
        let once = add_player_dailydraw(start.clone(), &s(who), &coins("uusd", 20), 2).unwrap();
        let twice = add_player_dailydraw(once, &s(who), &coins("uusd", 30), 3).unwrap();
        let combined = add_player_dailydraw(start.clone(), &s(who), &coins("uusd", 50), 5).unwrap();
        assert_eq!(twice.staked_tokens, combined.staked_tokens);
        assert_eq!(twice.staked_tokens, 90);
        assert_eq!(twice.players.len(), combined.players.len());
        for (p, q) in twice.players.iter().zip(combined.players.iter()) {
            assert_eq!(p.addr, q.addr);
            assert_eq!(p.tickets_count, q.tickets_count);
            assert_eq!(p.ticket_num, q.ticket_num);
        }
    }
}

#[test]
fn stake_stays_fee_times_tickets_through_rounds() {
    let mut daily = lottery(2, LotteryType::Daily, Some(10), Some(1));
    let jackpot = lottery(1, LotteryType::Jackpot, None, None);
    let state = instantiated("owner");
    for (who, n) in [("a", 2u64), ("b", 3), ("a", 1), ("c", 4)] {
        daily = add_player_dailydraw(daily, &s(who), &coins("uusd", 10 * n as u128), n).unwrap();
        let tickets: i32 = daily.players.iter().map(|p| p.tickets_count).sum();
        assert_eq!(daily.staked_tokens, 10 * tickets as u128);
        for (i, p) in daily.players.iter().enumerate() {
            assert_eq!(p.ticket_num, i as i32 + 1);
        }
    }
    assert_eq!(daily.players.len(), 3);
    let o = reward_winner(&state, &s("owner"), Ok(daily), Some(Ok(jackpot)), 1, 2).unwrap();
    // After the draw the lottery is empty, and new purchases start from zero.
    assert_eq!(o.lottery.staked_tokens, 0);
    let next = add_player_dailydraw(o.lottery, &s("b"), &coins("uusd", 50), 5).unwrap();
    assert_eq!(next.staked_tokens, 50);
    assert_eq!(next.players[0].tickets_count, 5);
    assert_eq!(next.players[0].ticket_num, 1);
}

#[test]
fn fast_draw_stake_is_fee_times_players() {
    let mut fast = lottery(3, LotteryType::Fast, Some(7), Some(1));
    for (i, who) in ["a", "b", "c"].iter().enumerate() {
        fast = add_player_fastdraw(fast, &s(who), &coins("uusd", 7)).unwrap();
        assert!(fast.players.iter().all(|p| p.tickets_count == 1));
        assert_eq!(fast.players.len(), i + 1);
        assert_eq!(fast.staked_tokens, 7 * fast.players.len() as u128);
    }
}

#[test]
fn daily_purchases_combine_beyond_i32_counts() {
    let start = lottery(2, LotteryType::Daily, Some(1), Some(1));
    let n1: u64 = (1 << 32) + 1;
    let n2: u64 = 2;
    let once = add_player_dailydraw(start.clone(), &s("a"), &coins("uusd", n1 as u128), n1).unwrap();
    let twice = add_player_dailydraw(once, &s("a"), &coins("uusd", n2 as u128), n2).unwrap();
    assert!(!add_player_dailydraw_panics(&start, &s("a"), &coins("uusd", (n1 + n2) as u128), n1 + n2));
    let combined = add_player_dailydraw(start, &s("a"), &coins("uusd", (n1 + n2) as u128), n1 + n2).unwrap();
    // Each count is taken modulo 2^32: 1 + 2 tickets, the full price staked.
    assert_eq!(twice.players[0].tickets_count, 3);
    assert_eq!(combined.players[0].tickets_count, 3);
    assert_eq!(twice.staked_tokens, combined.staked_tokens);
    assert_eq!(twice.players.len(), 1);
    assert_eq!(combined.players.len(), 1);
}

#[test]
fn combined_daily_purchase_can_overflow_where_two_do_not() {
    let mut start = lottery(2, LotteryType::Daily, Some(1), Some(1));
    start.players = vec![player("a", i32::MIN, 1)];
    let n: u64 = (1 << 31) - 1;
    assert!(!add_player_dailydraw_panics(&start, &s("a"), &coins("uusd", n as u128), n));
    let once = add_player_dailydraw(start.clone(), &s("a"), &coins("uusd", n as u128), n).unwrap();
    assert!(!add_player_dailydraw_panics(&once, &s("a"), &coins("uusd", n as u128), n));
    let twice = add_player_dailydraw(once, &s("a"), &coins("uusd", n as u128), n).unwrap();
    assert_eq!(twice.players[0].tickets_count, i32::MAX - 1);
    assert!(add_player_dailydraw_panics(&start, &s("a"), &coins("uusd", 2 * n as u128), 2 * n));
}
