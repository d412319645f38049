use vstd::prelude::*;
use cosmwasm_std::StdError;
use crate::decimal::decimal_mul_spec;
use crate::lottery::error::ContractError;
use crate::lottery::msg::NewLotteryMsg;
use crate::lottery::state::{Coin, CoinView, Lottery, LotteryType, LotteryView, PlayerView, StateView};
use crate::lottery::players::{index_of_addr, tickets_sum, tickets_sum_fits, winner_index};

verus! {

// ---------------------------------------------------------------------------
// Integer conversions that the contract performs with `as`.

/// What `x as i32` gives: the low 32 bits of `x` read as a signed number.
pub open spec fn wrap_i32(x: int) -> int {
    let m = x % 0x1_0000_0000;
    if m >= 0x8000_0000 {
        m - 0x1_0000_0000
    } else {
        m
    }
}

/// What `c as u128` gives for an `i32`: negative numbers wrap around 2^128.
pub open spec fn i32_as_u128(c: i32) -> int {
    if c >= 0 {
        c as int
    } else {
        c + 0x1_0000_0000_0000_0000_0000_0000_0000_0000
    }
}

// ---------------------------------------------------------------------------
// Views of the values handed in by the entry points.

pub open spec fn coins_view(cs: Seq<Coin>) -> Seq<CoinView> {
    cs.map_values(|c: Coin| c@)
}

pub open spec fn loaded_view(r: Result<Lottery, StdError>) -> Result<LotteryView, StdError> {
    match r {
        Ok(l) => Ok(l@),
        Err(e) => Err(e),
    }
}

pub open spec fn loaded_opt_view(o: Option<Result<Lottery, StdError>>) -> Option<
    Result<LotteryView, StdError>,
> {
    match o {
        Some(r) => Some(loaded_view(r)),
        None => None,
    }
}

/// Exactly one coin was sent, in the lottery's token.
pub open spec fn single_coin_of(funds: Seq<CoinView>, denom: Seq<char>) -> bool {
    funds.len() == 1 && funds[0].denom == denom
}

// ---------------------------------------------------------------------------
// Opening lotteries.

/// The first check that refuses a new lottery, if any. `jackpot` is what
/// reading the lottery `msg.jackpot_lottery_id` gave, present exactly when that
/// id is.
pub open spec fn new_lottery_error(
    state: StateView,
    sender: Seq<char>,
    msg: NewLotteryMsg,
    jackpot: Option<Result<LotteryView, StdError>>,
) -> Option<ContractError> {
    if sender != state.owner {
        Some(ContractError::Unauthorized {  })
    } else if msg.lottery_type != LotteryType::Jackpot {
        match jackpot {
            None => Some(ContractError::JackpotLotteryNotFound {  }),
            Some(Err(e)) => Some(ContractError::Std(e)),
            Some(Ok(j)) => if j.lottery_type != LotteryType::Jackpot {
                Some(ContractError::JackpotCrateFailed {  })
            } else if j.denom != msg.denom@ {
                Some(ContractError::WrongDenom {  })
            } else {
                None
            },
        }
    } else if msg.entry_fee is Some || msg.jackpot_lottery_id is Some {
        Some(ContractError::JackpotCrateFailed {  })
    } else {
        None
    }
}

/// The lottery that a successful request opens: numbered one past the
/// lotteries opened so far, empty, at round 0.
pub open spec fn opened_lottery(state: StateView, msg: NewLotteryMsg) -> LotteryView {
    LotteryView {
        id: (state.lottery_count + 1) as u64,
        entry_fee: msg.entry_fee,
        denom: msg.denom@,
        lottery_type: msg.lottery_type,
        staked_tokens: 0,
        latest_winner: None,
        jackpot_lottery_id: msg.jackpot_lottery_id,
        players: Seq::empty(),
        round_id: 0,
    }
}

// ---------------------------------------------------------------------------
// Buying tickets.

/// Adds `t` tickets to the first player with address `a`, or appends `a` as a
/// new player holding `t` tickets, numbered after the others.
pub open spec fn credit_tickets(ps: Seq<PlayerView>, a: Seq<char>, t: int) -> Seq<PlayerView> {
    let k = index_of_addr(ps, a);
    if k >= 0 {
        ps.update(k, PlayerView { tickets_count: (ps[k].tickets_count + t) as i32, ..ps[k] })
    } else {
        ps.push(PlayerView { addr: a, tickets_count: t as i32, ticket_num: (ps.len() + 1) as i32 })
    }
}

/// Crediting would overflow an `i32`: the player's new ticket count, or the
/// number of the new player.
pub open spec fn credit_overflows(ps: Seq<PlayerView>, a: Seq<char>, t: int) -> bool {
    let k = index_of_addr(ps, a);
    if k >= 0 {
        !(i32::MIN <= ps[k].tickets_count + t <= i32::MAX)
    } else {
        ps.len() >= i32::MAX
    }
}

pub open spec fn fastdraw_error(l: LotteryView, sender: Seq<char>, funds: Seq<CoinView>) -> Option<
    ContractError,
> {
    if l.lottery_type != LotteryType::Fast {
        Some(ContractError::Unauthorized {  })
    } else if l.players.len() >= 5 {
        Some(ContractError::ContractFull {  })
    } else if index_of_addr(l.players, sender) >= 0 {
        Some(ContractError::AlreadyExist {  })
    } else if !(single_coin_of(funds, l.denom) && l.entry_fee == Some(funds[0].amount)) {
        Some(ContractError::WrongFunds {  })
    } else {
        None
    }
}

/// The inputs on which joining a fast draw panics: a lottery without an entry
/// fee, or a stake that would overflow.
pub open spec fn fastdraw_panics(l: LotteryView, sender: Seq<char>, funds: Seq<CoinView>) -> bool {
    &&& l.lottery_type == LotteryType::Fast
    &&& l.players.len() < 5
    &&& index_of_addr(l.players, sender) < 0
    &&& single_coin_of(funds, l.denom)
    &&& (l.entry_fee is None || (l.entry_fee == Some(funds[0].amount) && l.staked_tokens
        + funds[0].amount > u128::MAX))
}

/// The fast draw after `sender` joined with one ticket, paying `amount`.
pub open spec fn fastdraw_next(l: LotteryView, sender: Seq<char>, amount: u128) -> LotteryView {
    LotteryView {
        players: l.players.push(
            PlayerView { addr: sender, tickets_count: 1, ticket_num: (l.players.len() + 1) as i32 },
        ),
        staked_tokens: (l.staked_tokens + amount) as u128,
        ..l
    }
}

pub open spec fn dailydraw_error(
    l: LotteryView,
    sender: Seq<char>,
    funds: Seq<CoinView>,
    number_of_tickets: u64,
) -> Option<ContractError> {
    if l.lottery_type != LotteryType::Daily {
        Some(ContractError::Unauthorized {  })
    } else if !(single_coin_of(funds, l.denom) && l.entry_fee is Some && funds[0].amount
        == l.entry_fee->0 * number_of_tickets) {
        Some(ContractError::WrongFunds {  })
    } else {
        None
    }
}

/// The inputs on which buying daily tickets panics: no entry fee, a price
/// that overflows, or (once paid) a ticket count, player number or stake that
/// overflows.
pub open spec fn dailydraw_panics(
    l: LotteryView,
    sender: Seq<char>,
    funds: Seq<CoinView>,
    number_of_tickets: u64,
) -> bool {
    &&& l.lottery_type == LotteryType::Daily
    &&& single_coin_of(funds, l.denom)
    &&& (l.entry_fee is None || l.entry_fee->0 * number_of_tickets > u128::MAX || (funds[0].amount
        == l.entry_fee->0 * number_of_tickets && (credit_overflows(
        l.players,
        sender,
        wrap_i32(number_of_tickets as int),
    ) || l.staked_tokens + funds[0].amount > u128::MAX)))
}

/// The daily draw after `sender` bought `number_of_tickets` tickets (counted
/// as an `i32`), paying `amount`.
pub open spec fn dailydraw_next(
    l: LotteryView,
    sender: Seq<char>,
    number_of_tickets: u64,
    amount: u128,
) -> LotteryView {
    LotteryView {
        players: credit_tickets(l.players, sender, wrap_i32(number_of_tickets as int)),
        staked_tokens: (l.staked_tokens + amount) as u128,
        ..l
    }
}

// ---------------------------------------------------------------------------
// Drawing the winner.

/// The first check that refuses a draw, if any.
pub open spec fn reward_error(
    state: StateView,
    sender: Seq<char>,
    lottery: Result<LotteryView, StdError>,
) -> Option<ContractError> {
    if sender != state.owner && sender != state.winner_handler {
        Some(ContractError::Unauthorized {  })
    } else {
        match lottery {
            Err(e) => Some(ContractError::Std(e)),
            Ok(l) => if too_few_tickets(l) {
                Some(ContractError::NotEnoughPlayers {  })
            } else {
                None
            },
        }
    }
}

/// A fast draw needs five tickets, any other lottery one.
pub open spec fn too_few_tickets(l: LotteryView) -> bool {
    let sum = tickets_sum(l.players);
    (l.lottery_type == LotteryType::Fast && sum < 5) || sum < 1
}

/// The drawn number: block height plus block time in seconds, modulo the
/// number of tickets.
pub open spec fn draw(l: LotteryView, height: u64, seconds: u64) -> int {
    (height + seconds) % tickets_sum(l.players)
}

/// The address of the player whose tickets hold the drawn number.
pub open spec fn winner_of(l: LotteryView, height: u64, seconds: u64) -> Seq<char> {
    l.players[winner_index(l.players, draw(l, height, seconds))].addr
}

/// The tickets of the first player with address `a`.
pub open spec fn tickets_of(l: LotteryView, a: Seq<char>) -> i32 {
    l.players[index_of_addr(l.players, a)].tickets_count
}

/// Jackpot tickets for a winner: its tickets times the entry fee in whole
/// tokens (millionths of a token are dropped).
pub open spec fn jackpot_tickets(count: i32, entry_fee: u128) -> int {
    i32_as_u128(count) * (entry_fee / 1_000_000)
}

/// The lottery after its draw: no players, nothing staked, the next round,
/// and the winner recorded.
pub open spec fn reset_lottery(l: LotteryView, winner: Seq<char>) -> LotteryView {
    LotteryView {
        players: Seq::empty(),
        staked_tokens: 0,
        round_id: (l.round_id + 1) as i32,
        latest_winner: Some(winner),
        ..l
    }
}

/// The jackpot after a draw of `l`: it receives `amount` and the winner is
/// credited its jackpot tickets.
pub open spec fn jackpot_after(j: LotteryView, l: LotteryView, winner: Seq<char>, amount: int) -> LotteryView {
    LotteryView {
        staked_tokens: (j.staked_tokens + amount) as u128,
        players: credit_tickets(
            j.players,
            winner,
            wrap_i32(jackpot_tickets(tickets_of(l, winner), l.entry_fee->0)),
        ),
        ..j
    }
}

/// The steps of feeding the jackpot that panic: its share does not fit in the
/// stake or in what is left of the prize, the lottery has no entry fee, or the
/// winner's jackpot tickets overflow.
pub open spec fn jackpot_step_panics(
    state: StateView,
    l: LotteryView,
    j: LotteryView,
    winner: Seq<char>,
) -> bool {
    let primary = l.staked_tokens;
    let dist = decimal_mul_spec(primary, state.percent_to_distributor);
    let jp = decimal_mul_spec(primary, state.percent_to_jackpot);
    ||| j.staked_tokens + jp > u128::MAX
    ||| jp > primary - dist
    ||| l.entry_fee is None
    ||| jackpot_tickets(tickets_of(l, winner), l.entry_fee->0) > u128::MAX
    ||| credit_overflows(
        j.players,
        winner,
        wrap_i32(jackpot_tickets(tickets_of(l, winner), l.entry_fee->0)),
    )
}

pub open spec fn jackpot_read_failed(jackpot: Option<Result<LotteryView, StdError>>) -> bool {
    match jackpot {
        Some(Err(_)) => true,
        _ => false,
    }
}

/// The inputs on which drawing a winner panics (after the checks of
/// `reward_error` that come before each step).
pub open spec fn reward_panics(
    state: StateView,
    sender: Seq<char>,
    lottery: Result<LotteryView, StdError>,
    jackpot: Option<Result<LotteryView, StdError>>,
    height: u64,
    seconds: u64,
) -> bool {
    &&& (sender == state.owner || sender == state.winner_handler)
    &&& lottery is Ok
    &&& {
        let l = lottery->Ok_0;
        ||| !tickets_sum_fits(l.players)
        ||| (!too_few_tickets(l) && {
            let primary = l.staked_tokens;
            let dist = decimal_mul_spec(primary, state.percent_to_distributor);
            let feeds_jackpot = l.lottery_type != LotteryType::Jackpot;
            ||| height + seconds > u64::MAX
            ||| winner_index(l.players, draw(l, height, seconds)) < 0
            ||| dist > primary
            ||| (feeds_jackpot && l.jackpot_lottery_id is None)
            ||| (feeds_jackpot && match jackpot {
                Some(Ok(j)) => jackpot_step_panics(state, l, j, winner_of(l, height, seconds)),
                _ => false,
            })
            ||| (!(feeds_jackpot && jackpot_read_failed(jackpot)) && l.round_id == i32::MAX)
        })
    }
}

} // verus!
