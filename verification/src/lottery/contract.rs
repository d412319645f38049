use vstd::prelude::*;
use cosmwasm_std::StdError;
use crate::decimal::{Decimal, decimal_mul, decimal_mul_checked, decimal_mul_spec};
use crate::lottery::error::ContractError;
use crate::lottery::msg::{InstantiateMsg, NewLotteryMsg};
use crate::lottery::state::{
    Coin, Lottery, LotteryType, LotteryView, Player, State, StateView, players_view,
};
use crate::lottery::players::{
    find_player, find_winner, holds_draw, is_first_holding, lemma_index_of_addr_found,
    lemma_winner_index_absent, lemma_winner_index_is, player_ranges, tickets_prefix, tickets_sum,
    tickets_total,
};
use crate::lottery::rules::{
    coins_view, credit_overflows, credit_tickets, dailydraw_error, dailydraw_next,
    dailydraw_panics, draw, fastdraw_error, fastdraw_next, fastdraw_panics, i32_as_u128,
    jackpot_after, jackpot_read_failed, jackpot_step_panics, loaded_opt_view,
    loaded_view, new_lottery_error, opened_lottery, reset_lottery, reward_error,
    reward_panics, winner_of, wrap_i32,
};

verus! {

/// What `x as i32` gives for a `u128`.
fn wrap_to_i32(x: u128) -> (r: i32)
    ensures
        r == wrap_i32(x as int),
{
    let m = x % 0x1_0000_0000;
    if m >= 0x8000_0000 {
        (m as i64 - 0x1_0000_0000i64) as i32
    } else {
        m as i32
    }
}

/// What `c as u128` gives for an `i32`.
fn i32_bits_as_u128(c: i32) -> (r: u128)
    ensures
        r == i32_as_u128(c),
{
    if c >= 0 {
        c as u128
    } else {
        u128::MAX - ((-(c as i64) - 1) as u128)
    }
}

/// Adds `t` tickets to the first player with address `addr`, or appends a new
/// player holding `t` tickets.
fn credit_player(players: &mut Vec<Player>, addr: &String, t: i32)
    requires
        !credit_overflows(players_view(old(players)@), addr@, t as int),
    ensures
        players_view(final(players)@) == credit_tickets(players_view(old(players)@), addr@, t as int),
{
    let ghost ps = players_view(players@);
    match find_player(players, addr) {
        Some(k) => {
            let mut p = players[k].duplicate();
            p.tickets_count = p.tickets_count + t;
            players.set(k, p);
            assert(players_view(players@) =~= credit_tickets(ps, addr@, t as int));
        },
        None => {
            let num = players.len() as i32 + 1;
            players.push(Player { addr: addr.clone(), tickets_count: t, ticket_num: num });
            assert(players_view(players@) =~= credit_tickets(ps, addr@, t as int));
        },
    }
}

/// The configuration a new contract starts with, or the first failed address
/// check.
pub open spec fn instantiated(
    sender: Seq<char>,
    msg: InstantiateMsg,
    winner_handler: Result<String, StdError>,
    distribution_addr: Result<String, StdError>,
) -> Result<StateView, StdError> {
    match winner_handler {
        Err(e) => Err(e),
        Ok(w) => match distribution_addr {
            Err(e) => Err(e),
            Ok(d) => Ok(
                StateView {
                    distribution_addr: d@,
                    owner: sender,
                    winner_handler: w@,
                    lottery_count: 0,
                    percent_to_distributor: msg.percent_to_distributor,
                    percent_to_jackpot: msg.percent_to_jackpot,
                },
            ),
        },
    }
}

/// The configuration of a new contract: the sender owns it, no lottery is
/// open yet. `winner_handler` and `distribution_addr` are the results of
/// checking the two addresses of `msg`, in that order.
pub fn instantiate(
    sender: &String,
    msg: &InstantiateMsg,
    winner_handler: Result<String, StdError>,
    distribution_addr: Result<String, StdError>,
) -> (res: Result<State, StdError>)
    ensures
        match instantiated(sender@, *msg, winner_handler, distribution_addr) {
            Ok(v) => res matches Ok(s) && s@ == v,
            Err(e) => res == Err::<State, StdError>(e),
        },
{
    let winner_handler = match winner_handler {
        Ok(w) => w,
        Err(e) => return Err(e),
    };
    let distribution_addr = match distribution_addr {
        Ok(d) => d,
        Err(e) => return Err(e),
    };
    Ok(State {
        owner: sender.clone(),
        winner_handler,
        lottery_count: 0,
        distribution_addr,
        percent_to_distributor: msg.percent_to_distributor,
        percent_to_jackpot: msg.percent_to_jackpot,
    })
}

pub open spec fn checked_addr_or(o: Option<Result<String, StdError>>, current: Seq<char>) -> Seq<char> {
    match o {
        Some(Ok(a)) => a@,
        _ => current,
    }
}

pub open spec fn decimal_or(o: Option<Decimal>, current: Decimal) -> Decimal {
    match o {
        Some(d) => d,
        None => current,
    }
}

/// The configuration after an update: refused unless the sender is the owner
/// or when checking a new address failed (the owner's first).
pub open spec fn config_update(
    state: StateView,
    sender: Seq<char>,
    owner: Option<Result<String, StdError>>,
    distribution_addr: Option<Result<String, StdError>>,
    percent_to_distributor: Option<Decimal>,
    percent_to_jackpot: Option<Decimal>,
) -> Result<StateView, ContractError> {
    if sender != state.owner {
        Err(ContractError::Unauthorized {  })
    } else {
        match (owner, distribution_addr) {
            (Some(Err(e)), _) => Err(ContractError::Std(e)),
            (_, Some(Err(e))) => Err(ContractError::Std(e)),
            _ => Ok(
                StateView {
                    owner: checked_addr_or(owner, state.owner),
                    distribution_addr: checked_addr_or(distribution_addr, state.distribution_addr),
                    percent_to_distributor: decimal_or(percent_to_distributor, state.percent_to_distributor),
                    percent_to_jackpot: decimal_or(percent_to_jackpot, state.percent_to_jackpot),
                    ..state
                },
            ),
        }
    }
}

/// Replaces the parts of the configuration that are given. Only the owner may
/// do so. `owner` and `distribution_addr` are the results of checking the new
/// addresses, where given; the first failed check is the error.
pub fn update_config(
    state: State,
    sender: &String,
    owner: Option<Result<String, StdError>>,
    distribution_addr: Option<Result<String, StdError>>,
    percent_to_distributor: Option<Decimal>,
    percent_to_jackpot: Option<Decimal>,
) -> (res: Result<State, ContractError>)
    ensures
        match config_update(
            state@,
            sender@,
            owner,
            distribution_addr,
            percent_to_distributor,
            percent_to_jackpot,
        ) {
            Ok(v) => res matches Ok(s) && s@ == v,
            Err(e) => res == Err::<State, ContractError>(e),
        },
{
    let mut config = state;
    if config.owner != *sender {
        return Err(ContractError::Unauthorized {  });
    }
    if let Some(owner) = owner {
        match owner {
            Ok(a) => {
                config.owner = a;
            },
            Err(e) => return Err(ContractError::Std(e)),
        }
    }
    if let Some(distribution_addr) = distribution_addr {
        match distribution_addr {
            Ok(a) => {
                config.distribution_addr = a;
            },
            Err(e) => return Err(ContractError::Std(e)),
        }
    }
    if let Some(p) = percent_to_distributor {
        config.percent_to_distributor = p;
    }
    if let Some(p) = percent_to_jackpot {
        config.percent_to_jackpot = p;
    }
    Ok(config)
}

/// Opens a new lottery. Only the owner may. A fast or daily lottery must name
/// an existing jackpot lottery in its own token; a jackpot lottery takes no
/// entry fee and no jackpot. `jackpot` is what reading the lottery
/// `lottery.jackpot_lottery_id` gave, present exactly when that id is. On
/// success the new configuration (one more lottery) and the new lottery are
/// returned.
pub fn add_new_lottery(
    state: State,
    sender: &String,
    lottery: NewLotteryMsg,
    jackpot: Option<Result<Lottery, StdError>>,
) -> (res: Result<(State, Lottery), ContractError>)
    requires
        jackpot is Some <==> lottery.jackpot_lottery_id is Some,
        new_lottery_error(state@, sender@, lottery, loaded_opt_view(jackpot)) is None
            ==> state.lottery_count < u64::MAX,
    ensures
        match new_lottery_error(state@, sender@, lottery, loaded_opt_view(jackpot)) {
            Some(e) => res == Err::<(State, Lottery), ContractError>(e),
            None => res matches Ok((s, l)) && s@ == (StateView {
                lottery_count: (state.lottery_count + 1) as u64,
                ..state@
            }) && l@ == opened_lottery(state@, lottery),
        },
{
    let mut state = state;
    if *sender != state.owner {
        return Err(ContractError::Unauthorized {  });
    }
    if lottery.lottery_type != LotteryType::Jackpot {
        if lottery.jackpot_lottery_id.is_none() {
            return Err(ContractError::JackpotLotteryNotFound {  });
        }
        let jackpot_lottery = match jackpot {
            Some(Ok(j)) => j,
            Some(Err(e)) => return Err(ContractError::Std(e)),
            None => return Err(ContractError::JackpotLotteryNotFound {  }),
        };
        if jackpot_lottery.lottery_type != LotteryType::Jackpot {
            return Err(ContractError::JackpotCrateFailed {  });
        }
        if jackpot_lottery.denom != lottery.denom {
            return Err(ContractError::WrongDenom {  });
        }
    } else {
        if lottery.entry_fee.is_some() || lottery.jackpot_lottery_id.is_some() {
            return Err(ContractError::JackpotCrateFailed {  });
        }
    }
    let new_lottery_id = state.lottery_count + 1;
    state.lottery_count = state.lottery_count + 1;
    let new_lottery = Lottery {
        id: new_lottery_id,
        entry_fee: lottery.entry_fee,
        denom: lottery.denom,
        lottery_type: lottery.lottery_type,
        staked_tokens: 0,
        latest_winner: None,
        jackpot_lottery_id: lottery.jackpot_lottery_id,
        players: Vec::new(),
        round_id: 0,
    };
    assert(new_lottery@.players =~= Seq::<crate::lottery::state::PlayerView>::empty());
    Ok((state, new_lottery))
}

/// Reports whether opening a lottery with these arguments panics: the request
/// passes every check but the count of lotteries is already `u64::MAX`.
pub fn add_new_lottery_panics(
    state: &State,
    sender: &String,
    lottery: &NewLotteryMsg,
    jackpot: &Option<Result<Lottery, StdError>>,
) -> (b: bool)
    ensures
        b == (new_lottery_error(state@, sender@, *lottery, loaded_opt_view(*jackpot)) is None
            && state.lottery_count == u64::MAX),
{
    if state.lottery_count != u64::MAX || *sender != state.owner {
        return false;
    }
    if lottery.lottery_type != LotteryType::Jackpot {
        match jackpot {
            Some(Ok(j)) => j.lottery_type == LotteryType::Jackpot && j.denom == lottery.denom,
            _ => false,
        }
    } else {
        !(lottery.entry_fee.is_some() || lottery.jackpot_lottery_id.is_some())
    }
}

/// The answer to a request to close a lottery.
pub open spec fn removal(state: StateView, sender: Seq<char>) -> Result<(), ContractError> {
    if sender == state.owner {
        Ok(())
    } else {
        Err(ContractError::Unauthorized {  })
    }
}

/// Decides a request to close a lottery: only the owner may.
pub fn remove_lottery(state: &State, sender: &String, lottery_id: u64) -> (res: Result<(), ContractError>)
    ensures
        res == removal(state@, sender@),
{
    if *sender != state.owner {
        return Err(ContractError::Unauthorized {  });
    }
    Ok(())
}

/// Joins a fast draw with one ticket. The lottery must be a fast draw with
/// fewer than five players that the sender has not joined yet, and exactly one
/// coin of the lottery's token worth the entry fee must be sent. Returns the
/// lottery with the sender appended and its stake raised by the fee.
pub fn add_player_fastdraw(lottery: Lottery, sender: &String, funds: &Vec<Coin>) -> (res: Result<
    Lottery,
    ContractError,
>)
    requires
        !fastdraw_panics(lottery@, sender@, coins_view(funds@)),
    ensures
        match fastdraw_error(lottery@, sender@, coins_view(funds@)) {
            Some(e) => res == Err::<Lottery, ContractError>(e),
            None => res matches Ok(l) && l@ == fastdraw_next(lottery@, sender@, funds@[0].amount),
        },
{
    let mut lottery = lottery;
    if lottery.lottery_type != LotteryType::Fast {
        return Err(ContractError::Unauthorized {  });
    }
    if lottery.players.len() >= 5 {
        return Err(ContractError::ContractFull {  });
    }
    if find_player(&lottery.players, sender).is_some() {
        return Err(ContractError::AlreadyExist {  });
    }
    let funds_amount = if funds.len() == 1 {
        if funds[0].denom == lottery.denom && funds[0].amount == lottery.entry_fee.unwrap() {
            funds[0].amount
        } else {
            return Err(ContractError::WrongFunds {  });
        }
    } else {
        return Err(ContractError::WrongFunds {  });
    };
    let ghost l0 = lottery@;
    let num = lottery.players.len() as i32 + 1;
    lottery.players.push(Player { addr: sender.clone(), tickets_count: 1, ticket_num: num });
    lottery.staked_tokens = lottery.staked_tokens + funds_amount;
    assert(players_view(lottery.players@) =~= fastdraw_next(l0, sender@, funds_amount).players);
    Ok(lottery)
}

/// Reports whether joining a fast draw with these arguments panics.
pub fn add_player_fastdraw_panics(lottery: &Lottery, sender: &String, funds: &Vec<Coin>) -> (b: bool)
    ensures
        b == fastdraw_panics(lottery@, sender@, coins_view(funds@)),
{
    if lottery.lottery_type != LotteryType::Fast || lottery.players.len() >= 5 {
        return false;
    }
    if find_player(&lottery.players, sender).is_some() {
        return false;
    }
    if !(funds.len() == 1 && funds[0].denom == lottery.denom) {
        return false;
    }
    match lottery.entry_fee {
        None => true,
        Some(fee) => fee == funds[0].amount && lottery.staked_tokens.checked_add(funds[0].amount).is_none(),
    }
}

/// Buys `number_of_tickets` tickets of a daily draw. Exactly one coin of the
/// lottery's token worth the entry fee times the number of tickets must be
/// sent. A player already in the draw gets the tickets added (counted as an
/// `i32`), anyone else is appended; the stake rises by the payment.
pub fn add_player_dailydraw(
    lottery: Lottery,
    sender: &String,
    funds: &Vec<Coin>,
    number_of_tickets: u64,
) -> (res: Result<Lottery, ContractError>)
    requires
        !dailydraw_panics(lottery@, sender@, coins_view(funds@), number_of_tickets),
    ensures
        match dailydraw_error(lottery@, sender@, coins_view(funds@), number_of_tickets) {
            Some(e) => res == Err::<Lottery, ContractError>(e),
            None => res matches Ok(l) && l@ == dailydraw_next(
                lottery@,
                sender@,
                number_of_tickets,
                funds@[0].amount,
            ),
        },
{
    let mut lottery = lottery;
    if lottery.lottery_type != LotteryType::Daily {
        return Err(ContractError::Unauthorized {  });
    }
    let funds_amount = if funds.len() == 1 {
        if funds[0].denom == lottery.denom {
            let price = lottery.entry_fee.unwrap().checked_mul(number_of_tickets as u128).unwrap();
            if funds[0].amount == price {
                funds[0].amount
            } else {
                return Err(ContractError::WrongFunds {  });
            }
        } else {
            return Err(ContractError::WrongFunds {  });
        }
    } else {
        return Err(ContractError::WrongFunds {  });
    };
    let tickets = wrap_to_i32(number_of_tickets as u128);
    credit_player(&mut lottery.players, sender, tickets);
    lottery.staked_tokens = lottery.staked_tokens + funds_amount;
    Ok(lottery)
}

/// Reports whether buying daily tickets with these arguments panics.
pub fn add_player_dailydraw_panics(
    lottery: &Lottery,
    sender: &String,
    funds: &Vec<Coin>,
    number_of_tickets: u64,
) -> (b: bool)
    ensures
        b == dailydraw_panics(lottery@, sender@, coins_view(funds@), number_of_tickets),
{
    if lottery.lottery_type != LotteryType::Daily {
        return false;
    }
    if !(funds.len() == 1 && funds[0].denom == lottery.denom) {
        return false;
    }
    let fee = match lottery.entry_fee {
        None => return true,
        Some(fee) => fee,
    };
    let price = match fee.checked_mul(number_of_tickets as u128) {
        None => return true,
        Some(p) => p,
    };
    if funds[0].amount != price {
        return false;
    }
    let t = wrap_to_i32(number_of_tickets as u128);
    let overflows = match find_player(&lottery.players, sender) {
        Some(k) => lottery.players[k].tickets_count.checked_add(t).is_none(),
        None => lottery.players.len() >= 0x7fff_ffff,
    };
    overflows || lottery.staked_tokens.checked_add(funds[0].amount).is_none()
}

/// The outcome of a draw, for the entry point to store and pay out.
pub struct RewardOutcome {
    /// The lottery after the draw.
    pub lottery: Lottery,
    /// The jackpot lottery after it was fed, for fast and daily lotteries.
    pub jackpot: Option<Lottery>,
    pub winner: String,
    pub tickets_sum: i32,
    pub random_num: u64,
    /// The stake of the round.
    pub primary_amount: u128,
    /// What the winner receives.
    pub final_amount: u128,
    /// What the distribution address receives.
    pub amount_to_distributor: u128,
    /// The round that was drawn.
    pub prev_round_id: i32,
}

/// `o` is the outcome of drawing lottery `l` at the given block.
pub open spec fn reward_outcome_is(
    state: StateView,
    l: LotteryView,
    jackpot: Option<Result<LotteryView, StdError>>,
    height: u64,
    seconds: u64,
    o: RewardOutcome,
) -> bool {
    let w = winner_of(l, height, seconds);
    let primary = l.staked_tokens;
    let dist = decimal_mul_spec(primary, state.percent_to_distributor);
    let jp = decimal_mul_spec(primary, state.percent_to_jackpot);
    &&& o.winner@ == w
    &&& o.tickets_sum == tickets_sum(l.players)
    &&& o.random_num == draw(l, height, seconds)
    &&& o.primary_amount == primary
    &&& o.amount_to_distributor == dist
    &&& o.prev_round_id == l.round_id
    &&& o.lottery@ == reset_lottery(l, w)
    &&& if l.lottery_type != LotteryType::Jackpot {
        &&& o.final_amount == primary - dist - jp
        &&& match jackpot {
            Some(Ok(j)) => o.jackpot matches Some(j2) && j2@ == jackpot_after(j, l, w, jp),
            _ => false,
        }
    } else {
        &&& o.final_amount == primary - dist
        &&& o.jackpot is None
    }
}

/// Draws the winner of a lottery's round. Only the owner or the winner
/// handler may. The drawn number is the block height plus the block time in
/// seconds modulo the number of tickets; the tickets of the players are laid
/// out one after the other from 0 and the player holding the number wins.
/// The distribution address gets `percent_to_distributor` of the stake; a fast
/// or daily lottery also gives `percent_to_jackpot` of it to its jackpot,
/// where the winner gets jackpot tickets. The winner gets the rest, and the
/// lottery starts its next round empty.
///
/// `lottery` is what reading the lottery gave; `jackpot` is what reading its
/// jackpot lottery gave, present exactly when the lottery was read and names
/// a jackpot.
pub fn reward_winner(
    state: &State,
    sender: &String,
    lottery: Result<Lottery, StdError>,
    jackpot: Option<Result<Lottery, StdError>>,
    block_height: u64,
    block_time_seconds: u64,
) -> (res: Result<RewardOutcome, ContractError>)
    requires
        jackpot is Some <==> (lottery matches Ok(l) && l.jackpot_lottery_id is Some),
        !reward_panics(
            state@,
            sender@,
            loaded_view(lottery),
            loaded_opt_view(jackpot),
            block_height,
            block_time_seconds,
        ),
    ensures
        match reward_error(state@, sender@, loaded_view(lottery)) {
            Some(e) => res == Err::<RewardOutcome, ContractError>(e),
            None => if lottery->Ok_0@.lottery_type != LotteryType::Jackpot && jackpot_read_failed(
                loaded_opt_view(jackpot),
            ) {
                res == Err::<RewardOutcome, ContractError>(ContractError::Std(jackpot->0->Err_0))
            } else {
                res matches Ok(o) && reward_outcome_is(
                    state@,
                    lottery->Ok_0@,
                    loaded_opt_view(jackpot),
                    block_height,
                    block_time_seconds,
                    o,
                )
            },
        },
{
    if *sender != state.owner && *sender != state.winner_handler {
        return Err(ContractError::Unauthorized {  });
    }
    let mut lottery = match lottery {
        Ok(l) => l,
        Err(e) => return Err(ContractError::Std(e)),
    };
    let ghost l0 = lottery@;
    let ghost ps = l0.players;
    let tickets_sum = tickets_total(&lottery.players).unwrap();
    if (lottery.lottery_type == LotteryType::Fast && tickets_sum < 5) || tickets_sum < 1 {
        return Err(ContractError::NotEnoughPlayers {  });
    }
    let mut final_amount = lottery.staked_tokens;
    let primary_amount = final_amount;
    let random_num: u64 = (block_height + block_time_seconds) % (tickets_sum as u64);
    let ghost r = random_num as int;
    assert(r == draw(l0, block_height, block_time_seconds));
    let ranges = player_ranges(&lottery.players);
    let w = match find_winner(&ranges, random_num as i32) {
        Some(w) => {
            assert(is_first_holding(ps, r, w as int)) by {
                assert forall|j: int| 0 <= j < w implies !holds_draw(ps, r, j) by {
                    assert(ranges@[j].tickets_range.start == tickets_prefix(ps, j));
                }
            }
            proof {
                lemma_winner_index_is(ps, r, w as int);
            }
            w
        },
        None => {
            proof {
                assert forall|j: int| 0 <= j < ps.len() implies !holds_draw(ps, r, j) by {
                    assert(ranges@[j].tickets_range.start == tickets_prefix(ps, j));
                }
                lemma_winner_index_absent(ps, r);
            }
            return Err(ContractError::NotEnoughPlayers {  });
        },
    };
    let winner_addr = ranges[w].addr.clone();
    assert(winner_addr@ == winner_of(l0, block_height, block_time_seconds));
    let amount_to_distributor = decimal_mul(primary_amount, state.percent_to_distributor);
    final_amount = final_amount - amount_to_distributor;
    let mut jackpot_out: Option<Lottery> = None;
    if lottery.lottery_type != LotteryType::Jackpot {
        let mut major_jackpot = match jackpot.unwrap() {
            Ok(j) => j,
            Err(e) => return Err(ContractError::Std(e)),
        };
        let ghost j0 = major_jackpot@;
        let amount_to_jackpot = decimal_mul(primary_amount, state.percent_to_jackpot);
        major_jackpot.staked_tokens = major_jackpot.staked_tokens + amount_to_jackpot;
        final_amount = final_amount - amount_to_jackpot;
        proof {
            lemma_index_of_addr_found(ps, winner_addr@, w as int);
        }
        let k = find_player(&lottery.players, &winner_addr).unwrap();
        let count_of_players_tickets = lottery.players[k].tickets_count;
        let entry_fee = lottery.entry_fee.unwrap();
        let jackpot_tickets_count = i32_bits_as_u128(count_of_players_tickets) * (entry_fee / 1000000);
        credit_player(&mut major_jackpot.players, &winner_addr, wrap_to_i32(jackpot_tickets_count));
        assert(major_jackpot@ == jackpot_after(j0, l0, winner_addr@, amount_to_jackpot as int));
        jackpot_out = Some(major_jackpot);
    }
    let prev_round_id = lottery.round_id;
    lottery.players = Vec::new();
    lottery.staked_tokens = 0;
    lottery.round_id = prev_round_id + 1;
    lottery.latest_winner = Some(winner_addr.clone());
    assert(lottery@ =~= reset_lottery(l0, winner_addr@)) by {
        assert(lottery@.players =~= Seq::<crate::lottery::state::PlayerView>::empty());
    }
    Ok(RewardOutcome {
        lottery,
        jackpot: jackpot_out,
        winner: winner_addr,
        tickets_sum,
        random_num,
        primary_amount,
        final_amount,
        amount_to_distributor,
        prev_round_id,
    })
}

/// Reports whether feeding the jackpot panics, for a draw won by the player
/// at `w`.
fn jackpot_step_panics_check(state: &State, l: &Lottery, j: &Lottery, winner: &String, w: usize) -> (b: bool)
    requires
        w < l.players@.len(),
        l.players@[w as int].addr@ == winner@,
        decimal_mul_spec(l.staked_tokens, state.percent_to_distributor) <= l.staked_tokens,
    ensures
        b == jackpot_step_panics(state@, l@, j@, winner@),
{
    let primary = l.staked_tokens;
    let dist = decimal_mul_checked(primary, state.percent_to_distributor).unwrap();
    let jp = match decimal_mul_checked(primary, state.percent_to_jackpot) {
        None => return true,
        Some(v) => v,
    };
    if j.staked_tokens.checked_add(jp).is_none() {
        return true;
    }
    if jp > primary - dist {
        return true;
    }
    let fee = match l.entry_fee {
        None => return true,
        Some(f) => f,
    };
    proof {
        lemma_index_of_addr_found(l@.players, winner@, w as int);
    }
    let k = find_player(&l.players, winner).unwrap();
    let count = l.players[k].tickets_count;
    let jtc = match i32_bits_as_u128(count).checked_mul(fee / 1000000) {
        None => return true,
        Some(v) => v,
    };
    let t = wrap_to_i32(jtc);
    match find_player(&j.players, winner) {
        Some(k2) => j.players[k2].tickets_count.checked_add(t).is_none(),
        None => j.players.len() >= 0x7fff_ffff,
    }
}

/// Reports whether drawing a winner with these arguments panics.
pub fn reward_winner_panics(
    state: &State,
    sender: &String,
    lottery: &Result<Lottery, StdError>,
    jackpot: &Option<Result<Lottery, StdError>>,
    block_height: u64,
    block_time_seconds: u64,
) -> (b: bool)
    ensures
        b == reward_panics(
            state@,
            sender@,
            loaded_view(*lottery),
            loaded_opt_view(*jackpot),
            block_height,
            block_time_seconds,
        ),
{
    if *sender != state.owner && *sender != state.winner_handler {
        return false;
    }
    let l = match lottery {
        Ok(l) => l,
        Err(_) => return false,
    };
    let ghost ps = l@.players;
    let sum = match tickets_total(&l.players) {
        None => return true,
        Some(t) => t,
    };
    if (l.lottery_type == LotteryType::Fast && sum < 5) || sum < 1 {
        return false;
    }
    let hs = match block_height.checked_add(block_time_seconds) {
        None => return true,
        Some(v) => v,
    };
    let random_num = hs % (sum as u64);
    let ghost r = random_num as int;
    let ranges = player_ranges(&l.players);
    let w = match find_winner(&ranges, random_num as i32) {
        Some(w) => {
            assert(is_first_holding(ps, r, w as int)) by {
                assert forall|j: int| 0 <= j < w implies !holds_draw(ps, r, j) by {
                    assert(ranges@[j].tickets_range.start == tickets_prefix(ps, j));
                }
            }
            proof {
                lemma_winner_index_is(ps, r, w as int);
            }
            w
        },
        None => {
            proof {
                assert forall|j: int| 0 <= j < ps.len() implies !holds_draw(ps, r, j) by {
                    assert(ranges@[j].tickets_range.start == tickets_prefix(ps, j));
                }
                lemma_winner_index_absent(ps, r);
            }
            return true;
        },
    };
    let primary = l.staked_tokens;
    let dist = match decimal_mul_checked(primary, state.percent_to_distributor) {
        None => return true,
        Some(d) => d,
    };
    if dist > primary {
        return true;
    }
    if l.lottery_type != LotteryType::Jackpot {
        if l.jackpot_lottery_id.is_none() {
            return true;
        }
        match jackpot {
            Some(Ok(j)) => {
                if jackpot_step_panics_check(state, l, j, &ranges[w].addr, w) {
                    return true;
                }
            },
            Some(Err(_)) => return false,
            None => {},
        }
    }
    l.round_id == 0x7fff_ffff
}

} // verus!
