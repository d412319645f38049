//! What the lottery contract keeps between calls, and how each call changes
//! it: the entry points store exactly what the functions of `contract` return,
//! and a call that fails or panics changes nothing.
use vstd::prelude::*;
use cosmwasm_std::StdError;
use crate::decimal::{Decimal, decimal_mul_spec};
use crate::lottery::contract::{config_update, removal};
use crate::lottery::msg::NewLotteryMsg;
use crate::lottery::rules::{
    dailydraw_error, dailydraw_next, dailydraw_panics, fastdraw_error, fastdraw_next,
    fastdraw_panics, jackpot_after, jackpot_read_failed, new_lottery_error, opened_lottery,
    reset_lottery, reward_error, reward_panics, winner_of,
};
use crate::lottery::state::{CoinView, LotteryType, LotteryView, StateView};
use crate::lottery::laws::{
    law_dailydraw_preserves_wf, law_fastdraw_preserves_wf, law_jackpot_feed_preserves_wf,
    law_opened_lottery_wf, law_reset_lottery_wf, lottery_wf,
};

verus! {

/// The contract's storage: its configuration and the lotteries stored under
/// their ids.
pub struct LotteryWorld {
    pub state: StateView,
    pub lotteries: Map<u64, LotteryView>,
}

/// One call of an entry point, by `sender`. New addresses of a configuration
/// update are given as the results of checking them.
pub enum LotteryCall {
    AddLottery { sender: Seq<char>, msg: NewLotteryMsg },
    RemoveLottery { sender: Seq<char>, id: u64 },
    AddPlayerFastDraw { sender: Seq<char>, id: u64, funds: Seq<CoinView> },
    AddPlayerDailyDraw { sender: Seq<char>, id: u64, funds: Seq<CoinView>, number_of_tickets: u64 },
    RewardWinner { sender: Seq<char>, id: u64, height: u64, seconds: u64 },
    UpdateConfig {
        sender: Seq<char>,
        owner: Option<Result<String, StdError>>,
        distribution_addr: Option<Result<String, StdError>>,
        percent_to_distributor: Option<Decimal>,
        percent_to_jackpot: Option<Decimal>,
    },
}

/// The storage right after instantiation.
pub open spec fn fresh_lotteries(state: StateView) -> LotteryWorld {
    LotteryWorld { state, lotteries: Map::empty() }
}

/// Reading a lottery: it fails when no lottery is stored under `id`.
pub open spec fn read_lottery(w: LotteryWorld, id: u64) -> Result<LotteryView, StdError> {
    if w.lotteries.contains_key(id) {
        Ok(w.lotteries[id])
    } else {
        Err(vstd::pervasive::arbitrary())
    }
}

/// Reading the jackpot lottery that a request or a lottery names, if any.
pub open spec fn read_named(w: LotteryWorld, id: Option<u64>) -> Option<Result<LotteryView, StdError>> {
    match id {
        Some(j) => Some(read_lottery(w, j)),
        None => None,
    }
}

/// The call opens a lottery.
pub open spec fn opens_lottery(w: LotteryWorld, c: LotteryCall) -> bool {
    match c {
        LotteryCall::AddLottery { sender, msg } => new_lottery_error(
            w.state,
            sender,
            msg,
            read_named(w, msg.jackpot_lottery_id),
        ) is None && w.state.lottery_count < u64::MAX,
        _ => false,
    }
}

/// The storage after a draw of the lottery `id`.
pub open spec fn after_reward(
    w: LotteryWorld,
    sender: Seq<char>,
    id: u64,
    height: u64,
    seconds: u64,
) -> LotteryWorld {
    let lottery = read_lottery(w, id);
    let jackpot = match lottery {
        Ok(l) => read_named(w, l.jackpot_lottery_id),
        Err(_) => None,
    };
    if reward_panics(w.state, sender, lottery, jackpot, height, seconds) || reward_error(
        w.state,
        sender,
        lottery,
    ) is Some {
        w
    } else {
        let l = w.lotteries[id];
        let winner = winner_of(l, height, seconds);
        if l.lottery_type == LotteryType::Jackpot {
            LotteryWorld { lotteries: w.lotteries.insert(id, reset_lottery(l, winner)), ..w }
        } else {
            match jackpot {
                Some(Ok(j)) => {
                    let share = decimal_mul_spec(l.staked_tokens, w.state.percent_to_jackpot);
                    LotteryWorld {
                        lotteries: w.lotteries.insert(
                            l.jackpot_lottery_id->0,
                            jackpot_after(j, l, winner, share),
                        ).insert(id, reset_lottery(l, winner)),
                        ..w
                    }
                },
                _ => w,
            }
        }
    }
}

/// The storage after one call.
pub open spec fn lottery_step(w: LotteryWorld, c: LotteryCall) -> LotteryWorld {
    match c {
        LotteryCall::AddLottery { msg, .. } => if opens_lottery(w, c) {
            let id = (w.state.lottery_count + 1) as u64;
            LotteryWorld {
                state: StateView { lottery_count: id, ..w.state },
                lotteries: w.lotteries.insert(id, opened_lottery(w.state, msg)),
            }
        } else {
            w
        },
        LotteryCall::RemoveLottery { sender, id } => if removal(w.state, sender) is Ok {
            LotteryWorld { lotteries: w.lotteries.remove(id), ..w }
        } else {
            w
        },
        LotteryCall::AddPlayerFastDraw { sender, id, funds } => if w.lotteries.contains_key(id) {
            let l = w.lotteries[id];
            if !fastdraw_panics(l, sender, funds) && fastdraw_error(l, sender, funds) is None {
                LotteryWorld {
                    lotteries: w.lotteries.insert(id, fastdraw_next(l, sender, funds[0].amount)),
                    ..w
                }
            } else {
                w
            }
        } else {
            w
        },
        LotteryCall::AddPlayerDailyDraw { sender, id, funds, number_of_tickets } => if w.lotteries.contains_key(id) {
            let l = w.lotteries[id];
            if !dailydraw_panics(l, sender, funds, number_of_tickets) && dailydraw_error(
                l,
                sender,
                funds,
                number_of_tickets,
            ) is None {
                LotteryWorld {
                    lotteries: w.lotteries.insert(
                        id,
                        dailydraw_next(l, sender, number_of_tickets, funds[0].amount),
                    ),
                    ..w
                }
            } else {
                w
            }
        } else {
            w
        },
        LotteryCall::RewardWinner { sender, id, height, seconds } => after_reward(
            w,
            sender,
            id,
            height,
            seconds,
        ),
        LotteryCall::UpdateConfig {
            sender,
            owner,
            distribution_addr,
            percent_to_distributor,
            percent_to_jackpot,
        } => match config_update(
            w.state,
            sender,
            owner,
            distribution_addr,
            percent_to_distributor,
            percent_to_jackpot,
        ) {
            Ok(v) => LotteryWorld { state: v, ..w },
            Err(_) => w,
        },
    }
}

/// The storage after the calls, first to last.
pub open spec fn lottery_run(w: LotteryWorld, calls: Seq<LotteryCall>) -> LotteryWorld
    decreases calls.len(),
{
    if calls.len() == 0 {
        w
    } else {
        lottery_run(lottery_step(w, calls[0]), calls.drop_first())
    }
}

/// The ids of the lotteries that the calls open, in order.
pub open spec fn opened_ids(w: LotteryWorld, calls: Seq<LotteryCall>) -> Seq<u64>
    decreases calls.len(),
{
    if calls.len() == 0 {
        Seq::empty()
    } else {
        let first = if opens_lottery(w, calls[0]) {
            seq![(w.state.lottery_count + 1) as u64]
        } else {
            Seq::empty()
        };
        first + opened_ids(lottery_step(w, calls[0]), calls.drop_first())
    }
}

/// Every stored lottery carries the id it is stored under, and that id is
/// between 1 and the number of lotteries opened so far.
pub open spec fn ids_consistent(w: LotteryWorld) -> bool {
    forall|k: u64|
        #[trigger] w.lotteries.contains_key(k) ==> w.lotteries[k].id == k && 1 <= k
            <= w.state.lottery_count
}

/// Every call keeps the stored ids consistent and never lowers the count of
/// lotteries. A call that opens a lottery raises the count by one and stores
/// the new lottery under the new count, an id under which nothing was stored;
/// any other call leaves the count as it was.
pub proof fn law_step_keeps_ids(w: LotteryWorld, c: LotteryCall)
    requires
        ids_consistent(w),
    ensures
        ids_consistent(lottery_step(w, c)),
        opens_lottery(w, c) ==> {
            let id = (w.state.lottery_count + 1) as u64;
            &&& lottery_step(w, c).state.lottery_count == w.state.lottery_count + 1
            &&& !w.lotteries.contains_key(id)
            &&& lottery_step(w, c).lotteries.contains_key(id)
            &&& lottery_step(w, c).lotteries[id].id == id
        },
        !opens_lottery(w, c) ==> lottery_step(w, c).state.lottery_count == w.state.lottery_count,
{
    let w2 = lottery_step(w, c);
    match c {
        LotteryCall::RewardWinner { id, .. } => {
            if w2 != w {
                let l = w.lotteries[id];
                if l.lottery_type != LotteryType::Jackpot {
                    assert(w.lotteries.contains_key(l.jackpot_lottery_id->0));
                }
            }
        },
        _ => {},
    }
}

/// Over any sequence of calls the stored ids stay consistent, the count of
/// lotteries never decreases, and the lotteries opened get strictly
/// increasing ids, each above the count before the calls and at most the
/// count after them: an id is never handed out twice, not even one whose
/// lottery was removed.
pub proof fn law_run_keeps_ids(w: LotteryWorld, calls: Seq<LotteryCall>)
    requires
        ids_consistent(w),
    ensures
        ids_consistent(lottery_run(w, calls)),
        lottery_run(w, calls).state.lottery_count >= w.state.lottery_count,
        forall|i: int|
            0 <= i < opened_ids(w, calls).len() ==> w.state.lottery_count < #[trigger] opened_ids(
                w,
                calls,
            )[i] <= lottery_run(w, calls).state.lottery_count,
        forall|i: int, j: int|
            0 <= i < j < opened_ids(w, calls).len() ==> #[trigger] opened_ids(w, calls)[i]
                < #[trigger] opened_ids(w, calls)[j],
    decreases calls.len(),
{
    if calls.len() > 0 {
        let w1 = lottery_step(w, calls[0]);
        let rest = calls.drop_first();
        law_step_keeps_ids(w, calls[0]);
        law_run_keeps_ids(w1, rest);
        let ids = opened_ids(w, calls);
        let tail = opened_ids(w1, rest);
        assert(lottery_run(w, calls) == lottery_run(w1, rest));
        if opens_lottery(w, calls[0]) {
            assert(ids == seq![(w.state.lottery_count + 1) as u64] + tail);
            assert forall|i: int| 0 <= i < ids.len() implies w.state.lottery_count < #[trigger] ids[i]
                <= lottery_run(w, calls).state.lottery_count by {
                if i > 0 {
                    assert(ids[i] == tail[i - 1]);
                }
            }
            assert forall|i: int, j: int| 0 <= i < j < ids.len() implies #[trigger] ids[i]
                < #[trigger] ids[j] by {
                assert(ids[j] == tail[j - 1]);
                if i > 0 {
                    assert(ids[i] == tail[i - 1]);
                }
            }
        } else {
            assert(ids =~= tail);
        }
    }
}

/// A fast or daily lottery names a jackpot lottery, numbered at most the
/// count of lotteries; if a lottery is stored under that number, it is a
/// jackpot lottery.
pub open spec fn names_jackpot(w: LotteryWorld, l: LotteryView) -> bool {
    l.lottery_type != LotteryType::Jackpot ==> (l.jackpot_lottery_id matches Some(j) && j
        <= w.state.lottery_count && (w.lotteries.contains_key(j) ==> w.lotteries[j].lottery_type
        == LotteryType::Jackpot))
}

/// Every stored lottery names its jackpot lottery as it should.
pub open spec fn jackpots_linked(w: LotteryWorld) -> bool {
    forall|k: u64| #[trigger] w.lotteries.contains_key(k) ==> names_jackpot(w, w.lotteries[k])
}

/// Every stored lottery is well formed.
pub open spec fn all_lotteries_wf(w: LotteryWorld) -> bool {
    forall|k: u64| #[trigger] w.lotteries.contains_key(k) ==> lottery_wf(w.lotteries[k])
}

/// The call buys at most `i32::MAX` daily tickets, if it buys any.
pub open spec fn tickets_fit(c: LotteryCall) -> bool {
    c matches LotteryCall::AddPlayerDailyDraw { number_of_tickets, .. } ==> number_of_tickets
        <= i32::MAX
}

/// Every call keeps each stored lottery well formed and linked to a jackpot
/// lottery, as long as it buys no more daily tickets than fit in an `i32`.
pub proof fn law_step_keeps_wf(w: LotteryWorld, c: LotteryCall)
    requires
        ids_consistent(w),
        jackpots_linked(w),
        all_lotteries_wf(w),
        tickets_fit(c),
    ensures
        jackpots_linked(lottery_step(w, c)),
        all_lotteries_wf(lottery_step(w, c)),
{
    let w2 = lottery_step(w, c);
    match c {
        LotteryCall::AddLottery { msg, .. } => {
            if opens_lottery(w, c) {
                let id = (w.state.lottery_count + 1) as u64;
                law_opened_lottery_wf(w.state, msg);
                assert(jackpots_linked(w2)) by {
                    assert forall|k: u64| #[trigger] w2.lotteries.contains_key(k) implies names_jackpot(
                        w2,
                        w2.lotteries[k],
                    ) by {
                        if k != id {
                            assert(w.lotteries.contains_key(k));
                        } else if msg.lottery_type != LotteryType::Jackpot {
                            let j = msg.jackpot_lottery_id->0;
                            assert(w.lotteries.contains_key(j));
                        }
                    }
                }
            }
        },
        LotteryCall::AddPlayerFastDraw { sender, id, funds } => {
            if w2 != w {
                law_fastdraw_preserves_wf(w.lotteries[id], sender, funds);
            }
        },
        LotteryCall::AddPlayerDailyDraw { sender, id, funds, number_of_tickets } => {
            if w2 != w {
                law_dailydraw_preserves_wf(w.lotteries[id], sender, funds, number_of_tickets);
            }
        },
        LotteryCall::RewardWinner { id, height, seconds, .. } => {
            if w2 != w {
                let l = w.lotteries[id];
                let winner = winner_of(l, height, seconds);
                law_reset_lottery_wf(l, winner);
                if l.lottery_type != LotteryType::Jackpot {
                    let j = l.jackpot_lottery_id->0;
                    assert(w.lotteries.contains_key(j));
                    let share = decimal_mul_spec(l.staked_tokens, w.state.percent_to_jackpot);
                    law_jackpot_feed_preserves_wf(w.lotteries[j], l, winner, share);
                }
            }
        },
        _ => {},
    }
}

/// Over any sequence of calls that buy no more daily tickets at a time than
/// fit in an `i32`, every stored lottery stays well formed: each address plays
/// once per round, players are numbered in order, a fast draw has at most five
/// players, and a fast or daily lottery holds exactly its entry fee times its
/// tickets.
pub proof fn law_run_keeps_wf(w: LotteryWorld, calls: Seq<LotteryCall>)
    requires
        ids_consistent(w),
        jackpots_linked(w),
        all_lotteries_wf(w),
        forall|i: int| 0 <= i < calls.len() ==> tickets_fit(#[trigger] calls[i]),
    ensures
        jackpots_linked(lottery_run(w, calls)),
        all_lotteries_wf(lottery_run(w, calls)),
    decreases calls.len(),
{
    if calls.len() > 0 {
        let w1 = lottery_step(w, calls[0]);
        let rest = calls.drop_first();
        assert(tickets_fit(calls[0]));
        law_step_keeps_ids(w, calls[0]);
        law_step_keeps_wf(w, calls[0]);
        assert forall|i: int| 0 <= i < rest.len() implies tickets_fit(#[trigger] rest[i]) by {
            assert(rest[i] == calls[i + 1]);
        }
        law_run_keeps_wf(w1, rest);
        assert(lottery_run(w, calls) == lottery_run(w1, rest));
    }
}

/// A freshly instantiated contract stores no lottery, so what the laws above
/// keep holds from the start.
pub proof fn law_fresh_lotteries_consistent(state: StateView)
    ensures
        ids_consistent(fresh_lotteries(state)),
        jackpots_linked(fresh_lotteries(state)),
        all_lotteries_wf(fresh_lotteries(state)),
{
}

} // verus!
