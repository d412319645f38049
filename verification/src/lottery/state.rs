use vstd::prelude::*;
use std::ops::Range;
use crate::decimal::Decimal;

verus! {

/// The kind of a lottery.
#[derive(Clone, Copy, Debug, PartialEq, Eq, Structural)]
pub enum LotteryType {
    Fast,
    Daily,
    Jackpot,
}

/// An amount of one token.
#[derive(Clone, Debug)]
pub struct Coin {
    pub denom: String,
    pub amount: u128,
}

pub struct CoinView {
    pub denom: Seq<char>,
    pub amount: u128,
}

impl View for Coin {
    type V = CoinView;

    open spec fn view(&self) -> CoinView {
        CoinView { denom: self.denom@, amount: self.amount }
    }
}

/// A participant of a lottery: its address, how many tickets it holds and its
/// place in the order of arrival (starting at 1).
#[derive(Clone, Debug)]
pub struct Player {
    pub addr: String,
    pub tickets_count: i32,
    pub ticket_num: i32,
}

pub struct PlayerView {
    pub addr: Seq<char>,
    pub tickets_count: i32,
    pub ticket_num: i32,
}

impl View for Player {
    type V = PlayerView;

    open spec fn view(&self) -> PlayerView {
        PlayerView { addr: self.addr@, tickets_count: self.tickets_count, ticket_num: self.ticket_num }
    }
}

impl Player {
    pub fn duplicate(&self) -> (r: Player)
        ensures
            r@ == self@,
    {
        Player { addr: self.addr.clone(), tickets_count: self.tickets_count, ticket_num: self.ticket_num }
    }
}

/// The half-open range of draw numbers that wins for a player.
#[derive(Debug)]
pub struct PlayerRange {
    pub addr: String,
    pub tickets_range: Range<i32>,
}

pub open spec fn opt_view(o: Option<String>) -> Option<Seq<char>> {
    match o {
        Some(s) => Some(s@),
        None => None,
    }
}

/// One lottery with its current round: the players, the tokens staked so far,
/// and the winner of the previous round.
#[derive(Clone, Debug)]
pub struct Lottery {
    pub id: u64,
    pub entry_fee: Option<u128>,
    pub denom: String,
    pub lottery_type: LotteryType,
    pub staked_tokens: u128,
    pub latest_winner: Option<String>,
    pub jackpot_lottery_id: Option<u64>,
    pub players: Vec<Player>,
    pub round_id: i32,
}

pub struct LotteryView {
    pub id: u64,
    pub entry_fee: Option<u128>,
    pub denom: Seq<char>,
    pub lottery_type: LotteryType,
    pub staked_tokens: u128,
    pub latest_winner: Option<Seq<char>>,
    pub jackpot_lottery_id: Option<u64>,
    pub players: Seq<PlayerView>,
    pub round_id: i32,
}

pub open spec fn players_view(ps: Seq<Player>) -> Seq<PlayerView> {
    ps.map_values(|p: Player| p@)
}

impl View for Lottery {
    type V = LotteryView;

    open spec fn view(&self) -> LotteryView {
        LotteryView {
            id: self.id,
            entry_fee: self.entry_fee,
            denom: self.denom@,
            lottery_type: self.lottery_type,
            staked_tokens: self.staked_tokens,
            latest_winner: opt_view(self.latest_winner),
            jackpot_lottery_id: self.jackpot_lottery_id,
            players: players_view(self.players@),
            round_id: self.round_id,
        }
    }
}

/// The contract's configuration.
#[derive(Clone, Debug)]
pub struct State {
    pub distribution_addr: String,
    pub owner: String,
    pub winner_handler: String,
    pub lottery_count: u64,
    pub percent_to_distributor: Decimal,
    pub percent_to_jackpot: Decimal,
}

pub struct StateView {
    pub distribution_addr: Seq<char>,
    pub owner: Seq<char>,
    pub winner_handler: Seq<char>,
    pub lottery_count: u64,
    pub percent_to_distributor: Decimal,
    pub percent_to_jackpot: Decimal,
}

impl View for State {
    type V = StateView;

    open spec fn view(&self) -> StateView {
        StateView {
            distribution_addr: self.distribution_addr@,
            owner: self.owner@,
            winner_handler: self.winner_handler@,
            lottery_count: self.lottery_count,
            percent_to_distributor: self.percent_to_distributor,
            percent_to_jackpot: self.percent_to_jackpot,
        }
    }
}

} // verus!
