use vstd::prelude::*;
use cosmwasm_std::StdError;
use crate::decimal::{DECIMAL_FRACTIONAL, decimal_mul_spec, law_two_shares_within};
use crate::lottery::msg::NewLotteryMsg;
use crate::lottery::state::{CoinView, LotteryType, LotteryView, PlayerView, StateView};
use crate::lottery::players::{
    holds_draw, index_of_addr, is_first_holding, is_first_with_addr, lemma_index_of_addr_found,
    lemma_index_of_addr_is, tickets_prefix, tickets_sum, winner_index,
};
use crate::lottery::rules::{
    credit_overflows, credit_tickets, dailydraw_error, dailydraw_next, dailydraw_panics,
    fastdraw_error, fastdraw_next, fastdraw_panics, jackpot_after, opened_lottery, reset_lottery,
    new_lottery_error, reward_error, wrap_i32,
};
use crate::lottery::contract::{RewardOutcome, config_update, instantiated, removal, reward_outcome_is};
use crate::lottery::msg::InstantiateMsg;
use crate::lottery::error::ContractError;

verus! {

/// No address plays twice in the same round.
pub open spec fn addrs_unique(ps: Seq<PlayerView>) -> bool {
    forall|i: int, j: int| 0 <= i < j < ps.len() ==> ps[i].addr != ps[j].addr
}

/// Players are numbered 1, 2, ... in the order in which they joined.
pub open spec fn numbered_in_order(ps: Seq<PlayerView>) -> bool {
    forall|i: int| 0 <= i < ps.len() ==> (#[trigger] ps[i]).ticket_num == i + 1
}

pub open spec fn fee_or_zero(l: LotteryView) -> int {
    match l.entry_fee {
        Some(f) => f as int,
        None => 0,
    }
}

/// Every player holds exactly one ticket.
pub open spec fn one_ticket_each(ps: Seq<PlayerView>) -> bool {
    forall|i: int| 0 <= i < ps.len() ==> (#[trigger] ps[i]).tickets_count == 1
}

/// What holds of every lottery the contract keeps: each address plays once,
/// players are numbered in order, a fast draw has at most five players, each
/// holding one ticket, and the stake of a fast or daily lottery is the entry
/// fee times the number of tickets.
pub open spec fn lottery_wf(l: LotteryView) -> bool {
    &&& addrs_unique(l.players)
    &&& numbered_in_order(l.players)
    &&& (l.lottery_type == LotteryType::Fast ==> l.players.len() <= 5 && one_ticket_each(l.players))
    &&& (l.lottery_type != LotteryType::Jackpot ==> l.staked_tokens == fee_or_zero(l) * tickets_sum(
        l.players,
    ))
}

proof fn lemma_prefix_push(ps: Seq<PlayerView>, x: PlayerView, k: int)
    requires
        0 <= k <= ps.len(),
    ensures
        tickets_prefix(ps.push(x), k) == tickets_prefix(ps, k),
    decreases k,
{
    if k > 0 {
        lemma_prefix_push(ps, x, k - 1);
    }
}

proof fn lemma_sum_push(ps: Seq<PlayerView>, x: PlayerView)
    ensures
        tickets_sum(ps.push(x)) == tickets_sum(ps) + x.tickets_count,
{
    lemma_prefix_push(ps, x, ps.len() as int);
}

proof fn lemma_prefix_update(ps: Seq<PlayerView>, i: int, x: PlayerView, k: int)
    requires
        0 <= i < ps.len(),
        0 <= k <= ps.len(),
    ensures
        tickets_prefix(ps.update(i, x), k) == tickets_prefix(ps, k) + if k > i {
            x.tickets_count - ps[i].tickets_count
        } else {
            0
        },
    decreases k,
{
    if k > 0 {
        lemma_prefix_update(ps, i, x, k - 1);
    }
}

proof fn lemma_absent(ps: Seq<PlayerView>, a: Seq<char>)
    requires
        index_of_addr(ps, a) < 0,
    ensures
        forall|i: int| 0 <= i < ps.len() ==> ps[i].addr != a,
{
    assert forall|i: int| 0 <= i < ps.len() implies ps[i].addr != a by {
        if ps[i].addr == a {
            lemma_index_of_addr_found(ps, a, i);
        }
    }
}

/// Crediting tickets keeps addresses unique and numbering in order, and adds
/// exactly the credited tickets to the total.
pub proof fn lemma_credit(ps: Seq<PlayerView>, a: Seq<char>, t: int)
    requires
        addrs_unique(ps),
        numbered_in_order(ps),
        !credit_overflows(ps, a, t),
        i32::MIN <= t <= i32::MAX,
    ensures
        addrs_unique(credit_tickets(ps, a, t)),
        numbered_in_order(credit_tickets(ps, a, t)),
        tickets_sum(credit_tickets(ps, a, t)) == tickets_sum(ps) + t,
        credit_tickets(ps, a, t).len() <= ps.len() + 1,
{
    let k = index_of_addr(ps, a);
    let qs = credit_tickets(ps, a, t);
    if k >= 0 {
        lemma_index_of_addr_found(ps, a, k);
        let x = PlayerView { tickets_count: (ps[k].tickets_count + t) as i32, ..ps[k] };
        lemma_prefix_update(ps, k, x, ps.len() as int);
        assert(numbered_in_order(qs)) by {
            assert forall|i: int| 0 <= i < qs.len() implies (#[trigger] qs[i]).ticket_num == i + 1 by {
                assert(ps[i].ticket_num == i + 1);
            }
        }
    } else {
        lemma_absent(ps, a);
        let x = PlayerView { addr: a, tickets_count: t as i32, ticket_num: (ps.len() + 1) as i32 };
        lemma_sum_push(ps, x);
        assert(numbered_in_order(qs)) by {
            assert forall|i: int| 0 <= i < qs.len() implies (#[trigger] qs[i]).ticket_num == i + 1 by {
                if i < ps.len() {
                    assert(ps[i].ticket_num == i + 1);
                }
            }
        }
    }
}

/// A newly opened lottery is well formed.
pub proof fn law_opened_lottery_wf(state: StateView, msg: NewLotteryMsg)
    ensures
        lottery_wf(opened_lottery(state, msg)),
{
    assert(tickets_sum(Seq::<PlayerView>::empty()) == 0);
    assert(fee_or_zero(opened_lottery(state, msg)) * 0 == 0) by (nonlinear_arith);
}

/// Lotteries are numbered 1, 2, 3, ... in the order they are opened: the
/// lottery opened after another gets the next number.
pub proof fn law_ids_increase(state: StateView, first: NewLotteryMsg, second: NewLotteryMsg)
    requires
        state.lottery_count < u64::MAX - 1,
    ensures
        opened_lottery(StateView { lottery_count: (state.lottery_count + 1) as u64, ..state }, second).id
            == opened_lottery(state, first).id + 1,
        opened_lottery(state, first).id == state.lottery_count + 1,
{
}

/// Joining a fast draw keeps a lottery well formed: the newcomer is not yet
/// playing, the draw stays within five players, and the stake grows by the
/// entry fee for the one new ticket.
pub proof fn law_fastdraw_preserves_wf(l: LotteryView, sender: Seq<char>, funds: Seq<CoinView>)
    requires
        lottery_wf(l),
        fastdraw_error(l, sender, funds) is None,
        !fastdraw_panics(l, sender, funds),
    ensures
        lottery_wf(fastdraw_next(l, sender, funds[0].amount)),
{
    let n = fastdraw_next(l, sender, funds[0].amount);
    let x = PlayerView { addr: sender, tickets_count: 1, ticket_num: (l.players.len() + 1) as i32 };
    lemma_absent(l.players, sender);
    lemma_sum_push(l.players, x);
    assert(numbered_in_order(n.players)) by {
        assert forall|i: int| 0 <= i < n.players.len() implies (#[trigger] n.players[i]).ticket_num
            == i + 1 by {
            if i < l.players.len() {
                assert(l.players[i].ticket_num == i + 1);
            }
        }
    }
    assert(one_ticket_each(n.players)) by {
        assert forall|i: int| 0 <= i < n.players.len() implies (#[trigger] n.players[i]).tickets_count
            == 1 by {
            if i < l.players.len() {
                assert(l.players[i].tickets_count == 1);
            }
        }
    }
    let f = fee_or_zero(l);
    assert(f * (tickets_sum(l.players) + 1) == f * tickets_sum(l.players) + f) by (nonlinear_arith);
}

/// With one ticket each, the first `k` players hold `k` tickets.
proof fn lemma_prefix_one_each(ps: Seq<PlayerView>, k: int)
    requires
        one_ticket_each(ps),
        0 <= k <= ps.len(),
    ensures
        tickets_prefix(ps, k) == k,
    decreases k,
{
    if k > 0 {
        lemma_prefix_one_each(ps, k - 1);
        assert(ps[k - 1].tickets_count == 1);
    }
}

/// In a well-formed fast draw every player holds exactly one ticket, so there
/// are as many tickets as players, at most five, and the stake is the entry
/// fee times the number of players.
pub proof fn law_fast_draw_one_ticket_each(l: LotteryView)
    requires
        lottery_wf(l),
        l.lottery_type == LotteryType::Fast,
    ensures
        l.players.len() <= 5,
        forall|i: int| 0 <= i < l.players.len() ==> (#[trigger] l.players[i]).tickets_count == 1,
        tickets_sum(l.players) == l.players.len(),
        l.staked_tokens == fee_or_zero(l) * l.players.len(),
{
    lemma_prefix_one_each(l.players, l.players.len() as int);
}

/// Buying daily tickets keeps a lottery well formed, as long as the number of
/// tickets fits in an `i32` (a larger number is counted modulo 2^32 while the
/// full price is paid).
pub proof fn law_dailydraw_preserves_wf(
    l: LotteryView,
    sender: Seq<char>,
    funds: Seq<CoinView>,
    number_of_tickets: u64,
)
    requires
        lottery_wf(l),
        dailydraw_error(l, sender, funds, number_of_tickets) is None,
        !dailydraw_panics(l, sender, funds, number_of_tickets),
        number_of_tickets <= i32::MAX,
    ensures
        lottery_wf(dailydraw_next(l, sender, number_of_tickets, funds[0].amount)),
{
    let t = number_of_tickets as int;
    assert(wrap_i32(t) == t) by {
        assert(t % 0x1_0000_0000 == t);
    }
    lemma_credit(l.players, sender, t);
    let f = fee_or_zero(l);
    assert(f * (tickets_sum(l.players) + t) == f * tickets_sum(l.players) + f * t) by (nonlinear_arith);
}

/// Crediting `t1` tickets and then `t2` more to the same address is crediting
/// `t1 + t2` at once, and the address's new count fits in an `i32`.
proof fn lemma_credit_twice(ps: Seq<PlayerView>, a: Seq<char>, t1: int, t2: int)
    requires
        i32::MIN <= t1 <= i32::MAX,
        i32::MIN <= t2 <= i32::MAX,
        !credit_overflows(ps, a, t1),
        !credit_overflows(credit_tickets(ps, a, t1), a, t2),
    ensures
        credit_tickets(credit_tickets(ps, a, t1), a, t2) == credit_tickets(ps, a, t1 + t2),
        !credit_overflows(ps, a, t1 + t2),
        index_of_addr(ps, a) >= 0 ==> i32::MIN <= ps[index_of_addr(ps, a)].tickets_count + t1 + t2
            <= i32::MAX,
        index_of_addr(ps, a) < 0 ==> i32::MIN <= t1 + t2 <= i32::MAX,
{
    let k = index_of_addr(ps, a);
    let qs = credit_tickets(ps, a, t1);
    if k >= 0 {
        assert(is_first_with_addr(ps, a, k));
        assert(is_first_with_addr(qs, a, k));
        lemma_index_of_addr_is(qs, a, k);
        assert(credit_tickets(qs, a, t2) =~= credit_tickets(ps, a, t1 + t2));
    } else {
        lemma_absent(ps, a);
        let n = ps.len() as int;
        assert(is_first_with_addr(qs, a, n));
        lemma_index_of_addr_is(qs, a, n);
        assert(credit_tickets(qs, a, t2) =~= credit_tickets(ps, a, t1 + t2));
    }
}

/// The tickets of two purchases, each counted as an `i32`, differ from the
/// tickets of the combined purchase by a multiple of 2^32.
proof fn lemma_wrap_add(n1: u64, n2: u64)
    ensures
        ({
            let d = wrap_i32(n1 as int) + wrap_i32(n2 as int) - wrap_i32(n1 + n2);
            ||| d == 0
            ||| d == 0x1_0000_0000
            ||| d == -0x1_0000_0000
            ||| d == 0x2_0000_0000
            ||| d == -0x2_0000_0000
        }),
{
    vstd::arithmetic::div_mod::lemma_mod_adds(n1 as int, n2 as int, 0x1_0000_0000);
    let m1 = n1 as int % 0x1_0000_0000;
    let m2 = n2 as int % 0x1_0000_0000;
    assert(0 <= m1 < 0x1_0000_0000 && 0 <= m2 < 0x1_0000_0000);
    assert(0 <= (m1 + m2) / 0x1_0000_0000 <= 1);
}

/// Two purchases of daily tickets by the same address, of `n1` and then `n2`
/// tickets, credit the address the two counts (each counted as an `i32`) and
/// raise the stake by the entry fee times `n1 + n2`. One purchase of `n1 + n2`
/// tickets paying both prices is accepted too; it panics exactly when the
/// address's combined count overflows an `i32`, which cannot happen when
/// `n1 + n2` fits in one; and when it does not panic it leaves the lottery as
/// the two purchases do.
pub proof fn law_daily_purchases_combine(
    l: LotteryView,
    sender: Seq<char>,
    funds1: Seq<CoinView>,
    n1: u64,
    funds2: Seq<CoinView>,
    n2: u64,
)
    requires
        dailydraw_error(l, sender, funds1, n1) is None,
        !dailydraw_panics(l, sender, funds1, n1),
        dailydraw_error(dailydraw_next(l, sender, n1, funds1[0].amount), sender, funds2, n2) is None,
        !dailydraw_panics(dailydraw_next(l, sender, n1, funds1[0].amount), sender, funds2, n2),
        n1 + n2 <= u64::MAX,
    ensures
        ({
            let paid = (funds1[0].amount + funds2[0].amount) as u128;
            let funds = seq![CoinView { denom: l.denom, amount: paid }];
            let n = (n1 + n2) as u64;
            let twice = dailydraw_next(
                dailydraw_next(l, sender, n1, funds1[0].amount),
                sender,
                n2,
                funds2[0].amount,
            );
            &&& dailydraw_error(l, sender, funds, n) is None
            &&& twice.players == credit_tickets(
                l.players,
                sender,
                wrap_i32(n1 as int) + wrap_i32(n2 as int),
            )
            &&& twice.staked_tokens == l.staked_tokens + l.entry_fee->0 * (n1 + n2)
            &&& dailydraw_panics(l, sender, funds, n) <==> credit_overflows(
                l.players,
                sender,
                wrap_i32(n1 + n2),
            )
            &&& !dailydraw_panics(l, sender, funds, n) ==> twice == dailydraw_next(l, sender, n, paid)
            &&& n1 + n2 <= i32::MAX ==> !dailydraw_panics(l, sender, funds, n)
        }),
{
    let f = l.entry_fee->0;
    let l1 = dailydraw_next(l, sender, n1, funds1[0].amount);
    let t1 = wrap_i32(n1 as int);
    let t2 = wrap_i32(n2 as int);
    let t12 = wrap_i32(n1 + n2);
    assert(f * (n1 + n2) == f * n1 + f * n2) by (nonlinear_arith);
    lemma_credit_twice(l.players, sender, t1, t2);
    lemma_wrap_add(n1, n2);
    if n1 + n2 <= i32::MAX {
        assert((n1 + n2) % 0x1_0000_0000 == n1 + n2);
        assert(n1 as int % 0x1_0000_0000 == n1);
        assert(n2 as int % 0x1_0000_0000 == n2);
    }
    let paid = (funds1[0].amount + funds2[0].amount) as u128;
    let n = (n1 + n2) as u64;
    if !credit_overflows(l.players, sender, t12) {
        assert(t12 == t1 + t2);
        assert(dailydraw_next(l1, sender, n2, funds2[0].amount) =~= dailydraw_next(l, sender, n, paid));
    }
}

/// After its draw a lottery is empty, and so well formed.
pub proof fn law_reset_lottery_wf(l: LotteryView, winner: Seq<char>)
    ensures
        lottery_wf(reset_lottery(l, winner)),
{
    assert(tickets_sum(Seq::<PlayerView>::empty()) == 0);
    assert(fee_or_zero(reset_lottery(l, winner)) * 0 == 0) by (nonlinear_arith);
}

/// Feeding a jackpot lottery keeps it well formed.
pub proof fn law_jackpot_feed_preserves_wf(j: LotteryView, l: LotteryView, winner: Seq<char>, amount: int)
    requires
        lottery_wf(j),
        j.lottery_type == LotteryType::Jackpot,
        !credit_overflows(
            j.players,
            winner,
            wrap_i32(crate::lottery::rules::jackpot_tickets(
                crate::lottery::rules::tickets_of(l, winner),
                l.entry_fee->0,
            )),
        ),
    ensures
        lottery_wf(jackpot_after(j, l, winner, amount)),
{
    let t = wrap_i32(crate::lottery::rules::jackpot_tickets(
        crate::lottery::rules::tickets_of(l, winner),
        l.entry_fee->0,
    ));
    lemma_credit(j.players, winner, t);
}

/// A draw pays out exactly the round's stake: the winner's prize, the
/// distributor's share and the jackpot's share add up to it.
pub proof fn law_reward_conserves_stake(
    state: StateView,
    l: LotteryView,
    jackpot: Option<Result<LotteryView, StdError>>,
    height: u64,
    seconds: u64,
    o: RewardOutcome,
)
    requires
        reward_outcome_is(state, l, jackpot, height, seconds, o),
    ensures
        o.final_amount + o.amount_to_distributor + (if l.lottery_type != LotteryType::Jackpot {
            decimal_mul_spec(l.staked_tokens, state.percent_to_jackpot)
        } else {
            0
        }) == o.primary_amount,
        o.lottery@.staked_tokens == 0,
        o.lottery@.players.len() == 0,
{
}

/// When the two percentages add up to at most one, a draw never hands out
/// more than the stake: the distributor's and the jackpot's shares fit in it.
pub proof fn law_reward_shares_fit(state: StateView, primary: u128)
    requires
        state.percent_to_distributor.atomics + state.percent_to_jackpot.atomics
            <= DECIMAL_FRACTIONAL,
    ensures
        decimal_mul_spec(primary, state.percent_to_distributor) <= primary,
        decimal_mul_spec(primary, state.percent_to_jackpot) <= primary - decimal_mul_spec(
            primary,
            state.percent_to_distributor,
        ),
{
    law_two_shares_within(primary, state.percent_to_distributor, state.percent_to_jackpot);
}

/// Every number from 0 up to, not including, the total of tickets is held by
/// some player, whatever the ticket counts (a negative count only makes its
/// range empty): the draw always finds a winner.
pub proof fn law_winner_exists(ps: Seq<PlayerView>, r: int)
    requires
        0 <= r < tickets_sum(ps),
    ensures
        0 <= winner_index(ps, r) < ps.len(),
        holds_draw(ps, r, winner_index(ps, r)),
{
    let i = some_holder(ps, r, ps.len() as int);
    let f = first_holder(ps, r, i);
    crate::lottery::players::lemma_winner_index_is(ps, r, f);
}

/// Some player among the first `k` holds `r`.
proof fn some_holder(ps: Seq<PlayerView>, r: int, k: int) -> (i: int)
    requires
        0 <= k <= ps.len(),
        0 <= r < tickets_prefix(ps, k),
    ensures
        0 <= i < k,
        holds_draw(ps, r, i),
    decreases k,
{
    if r < tickets_prefix(ps, k - 1) {
        some_holder(ps, r, k - 1)
    } else {
        k - 1
    }
}

/// The first player holding `r`, given that player `i` holds it.
proof fn first_holder(ps: Seq<PlayerView>, r: int, i: int) -> (f: int)
    requires
        0 <= i < ps.len(),
        holds_draw(ps, r, i),
    ensures
        is_first_holding(ps, r, f),
    decreases i,
{
    if forall|j: int| 0 <= j < i ==> !holds_draw(ps, r, j) {
        i
    } else {
        let j = choose|j: int| 0 <= j < i && holds_draw(ps, r, j);
        first_holder(ps, r, j)
    }
}

/// Who may draw, and when there are too few tickets: only the owner or the
/// winner handler may draw; a lottery that was read is then refused as
/// `NotEnoughPlayers` exactly when it is a fast draw with fewer than five
/// tickets or holds no ticket at all. A daily or jackpot lottery with one
/// ticket or more is drawn.
pub proof fn law_draw_refusals(state: StateView, sender: Seq<char>, l: LotteryView)
    ensures
        sender != state.owner && sender != state.winner_handler ==> reward_error(
            state,
            sender,
            Ok(l),
        ) == Some(ContractError::Unauthorized {  }),
        sender == state.owner || sender == state.winner_handler ==> reward_error(state, sender, Ok(l))
            == if (l.lottery_type == LotteryType::Fast && tickets_sum(l.players) < 5) || tickets_sum(
            l.players,
        ) < 1 {
            Some(ContractError::NotEnoughPlayers {  })
        } else {
            None
        },
        (sender == state.owner || sender == state.winner_handler) && l.lottery_type
            != LotteryType::Fast && tickets_sum(l.players) >= 1 ==> reward_error(state, sender, Ok(l))
            is None,
{
}

/// A daily purchase is accepted only when it is paid with exactly one coin,
/// in the lottery's own token, worth the entry fee times the tickets: a coin
/// in another token is refused as `WrongFunds`.
pub proof fn law_daily_purchase_paid_in_denom(
    l: LotteryView,
    sender: Seq<char>,
    funds: Seq<CoinView>,
    number_of_tickets: u64,
)
    ensures
        l.lottery_type != LotteryType::Daily ==> dailydraw_error(l, sender, funds, number_of_tickets)
            == Some(ContractError::Unauthorized {  }),
        l.lottery_type == LotteryType::Daily && (funds.len() != 1 || funds[0].denom != l.denom)
            ==> dailydraw_error(l, sender, funds, number_of_tickets) == Some(
            ContractError::WrongFunds {  },
        ),
        dailydraw_error(l, sender, funds, number_of_tickets) is None ==> {
            &&& l.lottery_type == LotteryType::Daily
            &&& funds.len() == 1
            &&& funds[0].denom == l.denom
            &&& l.entry_fee matches Some(f) && funds[0].amount == f * number_of_tickets
        },
{
}

/// A fast draw is joined only by a newcomer, while fewer than five play, with
/// exactly one coin in the lottery's token worth the entry fee; the newcomer
/// is appended with one ticket, numbered after the others, and the stake grows
/// by the fee. Nothing else changes.
pub proof fn law_fast_join(l: LotteryView, sender: Seq<char>, funds: Seq<CoinView>)
    ensures
        l.lottery_type != LotteryType::Fast ==> fastdraw_error(l, sender, funds) == Some(
            ContractError::Unauthorized {  },
        ),
        fastdraw_error(l, sender, funds) is None ==> {
            &&& l.lottery_type == LotteryType::Fast
            &&& l.players.len() < 5
            &&& forall|i: int| 0 <= i < l.players.len() ==> (#[trigger] l.players[i]).addr != sender
            &&& funds.len() == 1
            &&& funds[0].denom == l.denom
            &&& l.entry_fee == Some(funds[0].amount)
        },
        ({
            let n = fastdraw_next(l, sender, funds[0].amount);
            &&& n.players.len() == l.players.len() + 1
            &&& n.players.last() == PlayerView {
                addr: sender,
                tickets_count: 1,
                ticket_num: (l.players.len() + 1) as i32,
            }
            &&& forall|i: int| 0 <= i < l.players.len() ==> (#[trigger] n.players[i]) == l.players[i]
            &&& n.staked_tokens == (l.staked_tokens + funds[0].amount) as u128
            &&& n.id == l.id && n.lottery_type == l.lottery_type && n.denom == l.denom && n.entry_fee
                == l.entry_fee && n.jackpot_lottery_id == l.jackpot_lottery_id && n.round_id == l.round_id
                && n.latest_winner == l.latest_winner
        }),
{
    if fastdraw_error(l, sender, funds) is None {
        lemma_absent(l.players, sender);
    }
}

/// A successful update by the owner sets each part of the configuration from
/// its own argument when given and leaves it alone otherwise; the count of
/// lotteries and the winner handler never change. Anyone else is refused.
pub proof fn law_config_update_fields(
    state: StateView,
    sender: Seq<char>,
    owner: Option<Result<String, StdError>>,
    distribution_addr: Option<Result<String, StdError>>,
    percent_to_distributor: Option<crate::decimal::Decimal>,
    percent_to_jackpot: Option<crate::decimal::Decimal>,
)
    ensures
        sender != state.owner ==> config_update(
            state,
            sender,
            owner,
            distribution_addr,
            percent_to_distributor,
            percent_to_jackpot,
        ) == Err::<StateView, ContractError>(ContractError::Unauthorized {  }),
        sender == state.owner && !(owner matches Some(Err(_))) && !(distribution_addr matches Some(
            Err(_),
        )) ==> config_update(
            state,
            sender,
            owner,
            distribution_addr,
            percent_to_distributor,
            percent_to_jackpot,
        ) is Ok,
        config_update(state, sender, owner, distribution_addr, percent_to_distributor, percent_to_jackpot)
            matches Ok(v) ==> {
            &&& (match percent_to_jackpot {
                Some(p) => v.percent_to_jackpot == p,
                None => v.percent_to_jackpot == state.percent_to_jackpot,
            })
            &&& (match percent_to_distributor {
                Some(p) => v.percent_to_distributor == p,
                None => v.percent_to_distributor == state.percent_to_distributor,
            })
            &&& (match owner {
                Some(Ok(o)) => v.owner == o@,
                _ => v.owner == state.owner,
            })
            &&& (match distribution_addr {
                Some(Ok(d)) => v.distribution_addr == d@,
                _ => v.distribution_addr == state.distribution_addr,
            })
            &&& v.lottery_count == state.lottery_count
            &&& v.winner_handler == state.winner_handler
        },
{
}

/// A lottery opened by a request has the request's type, entry fee, token and
/// jackpot link, the next id after those opened so far, no players, nothing
/// staked, no winner yet, and starts at round 0.
pub proof fn law_opened_lottery_follows_request(state: StateView, msg: NewLotteryMsg)
    ensures
        opened_lottery(state, msg).lottery_type == msg.lottery_type,
        opened_lottery(state, msg).entry_fee == msg.entry_fee,
        opened_lottery(state, msg).denom == msg.denom@,
        opened_lottery(state, msg).jackpot_lottery_id == msg.jackpot_lottery_id,
        state.lottery_count < u64::MAX ==> opened_lottery(state, msg).id == state.lottery_count + 1,
        opened_lottery(state, msg).players.len() == 0,
        opened_lottery(state, msg).staked_tokens == 0,
        opened_lottery(state, msg).latest_winner is None,
        opened_lottery(state, msg).round_id == 0,
{
}

/// Who may open a lottery and what it must name: only the owner; a fast or
/// daily lottery needs an existing jackpot lottery in the same token, and a
/// jackpot lottery takes neither an entry fee nor a jackpot of its own.
pub proof fn law_new_lottery_refusals(
    state: StateView,
    sender: Seq<char>,
    msg: NewLotteryMsg,
    jackpot: Option<Result<LotteryView, StdError>>,
)
    ensures
        sender != state.owner ==> new_lottery_error(state, sender, msg, jackpot) == Some(
            ContractError::Unauthorized {  },
        ),
        sender == state.owner && msg.lottery_type != LotteryType::Jackpot && jackpot is None
            ==> new_lottery_error(state, sender, msg, jackpot) == Some(
            ContractError::JackpotLotteryNotFound {  },
        ),
        new_lottery_error(state, sender, msg, jackpot) is None ==> {
            &&& sender == state.owner
            &&& msg.lottery_type != LotteryType::Jackpot ==> (jackpot matches Some(Ok(j))
                && j.lottery_type == LotteryType::Jackpot && j.denom == msg.denom@)
            &&& msg.lottery_type == LotteryType::Jackpot ==> (msg.entry_fee is None
                && msg.jackpot_lottery_id is None)
        },
        sender == state.owner && msg.lottery_type == LotteryType::Jackpot && msg.entry_fee is None
            && msg.jackpot_lottery_id is None ==> new_lottery_error(state, sender, msg, jackpot) is None,
        sender == state.owner && msg.lottery_type != LotteryType::Jackpot && (jackpot matches Some(Ok(j))
            && j.lottery_type == LotteryType::Jackpot && j.denom == msg.denom@) ==> new_lottery_error(
            state,
            sender,
            msg,
            jackpot,
        ) is None,
{
}

/// What counting a number of tickets as an `i32` gives: a value in the `i32`
/// range that differs from the number by a multiple of 2^32, and the number
/// itself when it fits.
pub proof fn law_wrap_i32(x: int)
    ensures
        i32::MIN <= wrap_i32(x) <= i32::MAX,
        (x - wrap_i32(x)) % 0x1_0000_0000 == 0,
        i32::MIN <= x <= i32::MAX ==> wrap_i32(x) == x,
{
    vstd::arithmetic::div_mod::lemma_fundamental_div_mod(x, 0x1_0000_0000);
    if i32::MIN <= x <= i32::MAX {
        if x >= 0 {
            vstd::arithmetic::div_mod::lemma_small_mod(x as nat, 0x1_0000_0000);
        } else {
            vstd::arithmetic::div_mod::lemma_fundamental_div_mod_converse(
                x,
                0x1_0000_0000,
                -1,
                x + 0x1_0000_0000,
            );
        }
    }
    let m = x % 0x1_0000_0000;
    let q = x / 0x1_0000_0000;
    if m >= 0x8000_0000 {
        vstd::arithmetic::div_mod::lemma_fundamental_div_mod_converse(
            x - (m - 0x1_0000_0000),
            0x1_0000_0000,
            q + 1,
            0,
        );
    } else {
        vstd::arithmetic::div_mod::lemma_fundamental_div_mod_converse(x - m, 0x1_0000_0000, q, 0);
    }
}

/// Crediting tickets to an address that plays already changes only its first
/// entry, whose count grows by the tickets.
pub proof fn law_credit_existing(ps: Seq<PlayerView>, a: Seq<char>, t: int, k: int)
    requires
        0 <= k < ps.len(),
        ps[k].addr == a,
        forall|j: int| 0 <= j < k ==> ps[j].addr != a,
        i32::MIN <= ps[k].tickets_count + t <= i32::MAX,
    ensures
        credit_tickets(ps, a, t).len() == ps.len(),
        credit_tickets(ps, a, t)[k] == (PlayerView {
            tickets_count: (ps[k].tickets_count + t) as i32,
            ..ps[k]
        }),
        credit_tickets(ps, a, t)[k].tickets_count == ps[k].tickets_count + t,
        forall|j: int| 0 <= j < ps.len() && j != k ==> #[trigger] credit_tickets(ps, a, t)[j] == ps[j],
{
    lemma_index_of_addr_is(ps, a, k);
}

/// Crediting tickets to an address that does not play yet appends it, with
/// those tickets and the next number, after everyone else.
pub proof fn law_credit_new(ps: Seq<PlayerView>, a: Seq<char>, t: int)
    requires
        forall|j: int| 0 <= j < ps.len() ==> ps[j].addr != a,
    ensures
        credit_tickets(ps, a, t).len() == ps.len() + 1,
        credit_tickets(ps, a, t).last() == (PlayerView {
            addr: a,
            tickets_count: t as i32,
            ticket_num: (ps.len() + 1) as i32,
        }),
        forall|j: int| 0 <= j < ps.len() ==> #[trigger] credit_tickets(ps, a, t)[j] == ps[j],
{
    crate::lottery::players::lemma_index_of_addr_absent(ps, a);
}

/// A daily purchase credits the sender its tickets counted as an `i32` and
/// raises the stake by what was paid; nothing else changes.
pub proof fn law_daily_purchase_effect(l: LotteryView, sender: Seq<char>, n: u64, amount: u128)
    requires
        l.staked_tokens + amount <= u128::MAX,
    ensures
        dailydraw_next(l, sender, n, amount).players == credit_tickets(
            l.players,
            sender,
            wrap_i32(n as int),
        ),
        dailydraw_next(l, sender, n, amount).staked_tokens == l.staked_tokens + amount,
        ({
            let m = dailydraw_next(l, sender, n, amount);
            m.id == l.id && m.lottery_type == l.lottery_type && m.denom == l.denom && m.entry_fee
                == l.entry_fee && m.jackpot_lottery_id == l.jackpot_lottery_id && m.round_id == l.round_id
                && m.latest_winner == l.latest_winner
        }),
{
}

/// What a draw hands out and leaves behind: the distributor gets the
/// distributor percentage of the stake and (for a fast or daily lottery) the
/// jackpot the jackpot percentage, both rounded down; the winner gets the
/// rest. The drawn number is the block height plus time modulo the tickets,
/// and the winner is a player whose tickets hold it. The lottery is emptied
/// into its next round with the winner recorded, and the jackpot receives its
/// share and credits the winner its tickets times the entry fee in whole
/// tokens.
pub proof fn law_reward_outcome_values(
    state: StateView,
    l: LotteryView,
    jackpot: Option<Result<LotteryView, StdError>>,
    height: u64,
    seconds: u64,
    o: RewardOutcome,
)
    requires
        reward_outcome_is(state, l, jackpot, height, seconds, o),
    ensures
        o.primary_amount == l.staked_tokens,
        o.amount_to_distributor == (l.staked_tokens as int * state.percent_to_distributor.atomics as int)
            / 1_000_000_000_000_000_000,
        l.lottery_type == LotteryType::Jackpot ==> o.final_amount == l.staked_tokens
            - o.amount_to_distributor && o.jackpot is None,
        l.lottery_type != LotteryType::Jackpot ==> o.final_amount == l.staked_tokens
            - o.amount_to_distributor - (l.staked_tokens as int * state.percent_to_jackpot.atomics as int)
            / 1_000_000_000_000_000_000,
        o.random_num == (height + seconds) % tickets_sum(l.players),
        o.tickets_sum == tickets_sum(l.players),
        tickets_sum(l.players) >= 1 ==> exists|i: int|
            0 <= i < l.players.len() && tickets_prefix(l.players, i) <= o.random_num
                < tickets_prefix(l.players, i + 1) && #[trigger] l.players[i].addr == o.winner@ && (
            forall|j: int|
                0 <= j < i ==> !(tickets_prefix(l.players, j) <= o.random_num < #[trigger] tickets_prefix(
                    l.players,
                    j + 1,
                ))),
        o.lottery@.players.len() == 0,
        o.lottery@.staked_tokens == 0,
        o.lottery@.round_id == (l.round_id + 1) as i32,
        o.lottery@.latest_winner == Some(o.winner@),
        o.prev_round_id == l.round_id,
        o.lottery@.id == l.id && o.lottery@.lottery_type == l.lottery_type && o.lottery@.denom == l.denom
            && o.lottery@.entry_fee == l.entry_fee && o.lottery@.jackpot_lottery_id
            == l.jackpot_lottery_id,
        l.lottery_type != LotteryType::Jackpot && jackpot is Some && jackpot->0 is Ok ==> o.jackpot
            is Some && {
            let j = jackpot->0->Ok_0;
            let j2 = o.jackpot->0;
            let count = l.players[index_of_addr(l.players, o.winner@)].tickets_count;
            let count_u = if count >= 0 {
                count as int
            } else {
                count + 0x1_0000_0000_0000_0000_0000_0000_0000_0000
            };
            &&& j2@.staked_tokens == (j.staked_tokens + (l.staked_tokens as int
                * state.percent_to_jackpot.atomics as int) / 1_000_000_000_000_000_000) as u128
            &&& j2@.players == credit_tickets(
                j.players,
                o.winner@,
                wrap_i32(count_u * (l.entry_fee->0 / 1_000_000)),
            )
            &&& j2@.id == j.id && j2@.lottery_type == j.lottery_type && j2@.round_id == j.round_id
                && j2@.denom == j.denom
        },
{
    if tickets_sum(l.players) >= 1 {
        let r = (height + seconds) % tickets_sum(l.players);
        law_winner_exists(l.players, r);
        let i = winner_index(l.players, r);
        assert(is_first_holding(l.players, r, i));
        assert(l.players[i].addr == o.winner@);
        assert forall|j: int| 0 <= j < i implies !(tickets_prefix(l.players, j) <= o.random_num
            < #[trigger] tickets_prefix(l.players, j + 1)) by {
            assert(!holds_draw(l.players, r, j));
        }
    }
}

/// Which refusal a fast-draw request gets, in order: not a fast draw, full,
/// already playing, wrong payment.
pub proof fn law_fast_join_refusals(l: LotteryView, sender: Seq<char>, funds: Seq<CoinView>)
    ensures
        l.lottery_type == LotteryType::Fast && l.players.len() >= 5 ==> fastdraw_error(l, sender, funds)
            == Some(ContractError::ContractFull {  }),
        l.lottery_type == LotteryType::Fast && l.players.len() < 5 && (exists|i: int|
            0 <= i < l.players.len() && #[trigger] l.players[i].addr == sender) ==> fastdraw_error(
            l,
            sender,
            funds,
        ) == Some(ContractError::AlreadyExist {  }),
        l.lottery_type == LotteryType::Fast && l.players.len() < 5 && (forall|i: int|
            0 <= i < l.players.len() ==> #[trigger] l.players[i].addr != sender) ==> fastdraw_error(
            l,
            sender,
            funds,
        ) == if funds.len() == 1 && funds[0].denom == l.denom && l.entry_fee == Some(funds[0].amount) {
            None
        } else {
            Some(ContractError::WrongFunds {  })
        },
{
    if l.lottery_type == LotteryType::Fast && l.players.len() < 5 {
        if exists|i: int| 0 <= i < l.players.len() && #[trigger] l.players[i].addr == sender {
            let i = choose|i: int| 0 <= i < l.players.len() && #[trigger] l.players[i].addr == sender;
            lemma_index_of_addr_found(l.players, sender, i);
        } else {
            crate::lottery::players::lemma_index_of_addr_absent(l.players, sender);
        }
    }
}

/// Which refusal a request to open a fast or daily lottery gets from the
/// owner: no jackpot named, the jackpot could not be read, it is not a
/// jackpot lottery, or it is in another token. A jackpot lottery asking for a
/// fee or a jackpot is refused too.
pub proof fn law_new_lottery_jackpot_refusals(
    state: StateView,
    msg: NewLotteryMsg,
    jackpot: Option<Result<LotteryView, StdError>>,
)
    ensures
        msg.lottery_type != LotteryType::Jackpot && jackpot is Some && jackpot->0 is Err
            ==> new_lottery_error(state, state.owner, msg, jackpot) == Some(
            ContractError::Std(jackpot->0->Err_0),
        ),
        msg.lottery_type != LotteryType::Jackpot && jackpot is Some && jackpot->0 is Ok
            && jackpot->0->Ok_0.lottery_type != LotteryType::Jackpot ==> new_lottery_error(
            state,
            state.owner,
            msg,
            jackpot,
        ) == Some(ContractError::JackpotCrateFailed {  }),
        msg.lottery_type != LotteryType::Jackpot && jackpot is Some && jackpot->0 is Ok
            && jackpot->0->Ok_0.lottery_type == LotteryType::Jackpot && jackpot->0->Ok_0.denom
            != msg.denom@ ==> new_lottery_error(state, state.owner, msg, jackpot) == Some(
            ContractError::WrongDenom {  },
        ),
        msg.lottery_type == LotteryType::Jackpot && (msg.entry_fee is Some || msg.jackpot_lottery_id
            is Some) ==> new_lottery_error(state, state.owner, msg, jackpot) == Some(
            ContractError::JackpotCrateFailed {  },
        ),
{
}

/// When joining a fast draw panics: the request passes every check but the
/// lottery has no entry fee, or the fee would overflow the stake.
pub proof fn law_fast_join_panics(l: LotteryView, sender: Seq<char>, funds: Seq<CoinView>)
    ensures
        fastdraw_panics(l, sender, funds) <==> {
            &&& l.lottery_type == LotteryType::Fast
            &&& l.players.len() < 5
            &&& forall|i: int| 0 <= i < l.players.len() ==> #[trigger] l.players[i].addr != sender
            &&& funds.len() == 1
            &&& funds[0].denom == l.denom
            &&& (l.entry_fee is None || (l.entry_fee == Some(funds[0].amount) && l.staked_tokens
                + funds[0].amount > u128::MAX))
        },
{
    if exists|i: int| 0 <= i < l.players.len() && #[trigger] l.players[i].addr == sender {
        let i = choose|i: int| 0 <= i < l.players.len() && #[trigger] l.players[i].addr == sender;
        lemma_index_of_addr_found(l.players, sender, i);
    } else {
        crate::lottery::players::lemma_index_of_addr_absent(l.players, sender);
    }
}

/// When buying daily tickets panics: a single coin in the lottery's token is
/// sent but the lottery has no entry fee, or the price overflows, or the
/// price is paid and the sender's ticket count (or the number of players) or
/// the stake would overflow.
pub proof fn law_daily_purchase_panics(
    l: LotteryView,
    sender: Seq<char>,
    funds: Seq<CoinView>,
    n: u64,
)
    ensures
        dailydraw_panics(l, sender, funds, n) <==> {
            &&& l.lottery_type == LotteryType::Daily
            &&& funds.len() == 1
            &&& funds[0].denom == l.denom
            &&& (l.entry_fee is None || l.entry_fee->0 * n > u128::MAX || (funds[0].amount
                == l.entry_fee->0 * n && (l.staked_tokens + funds[0].amount > u128::MAX || (exists|k: int|
                0 <= k < l.players.len() && #[trigger] l.players[k].addr == sender && (forall|j: int|
                0 <= j < k ==> l.players[j].addr != sender) && !(i32::MIN <= l.players[k].tickets_count
                + wrap_i32(n as int) <= i32::MAX)) || ((forall|k: int|
                0 <= k < l.players.len() ==> #[trigger] l.players[k].addr != sender) && l.players.len()
                >= i32::MAX))))
        },
{
    if exists|i: int| 0 <= i < l.players.len() && #[trigger] l.players[i].addr == sender {
        let i = choose|i: int| 0 <= i < l.players.len() && #[trigger] l.players[i].addr == sender;
        lemma_index_of_addr_found(l.players, sender, i);
    } else {
        crate::lottery::players::lemma_index_of_addr_absent(l.players, sender);
    }
}

/// A new contract is owned by its creator, has opened no lottery yet, takes
/// its percentages from the message and its addresses from their checks; a
/// failed check, the winner handler's first, is the error.
pub proof fn law_instantiated(
    sender: Seq<char>,
    msg: InstantiateMsg,
    winner_handler: Result<String, StdError>,
    distribution_addr: Result<String, StdError>,
)
    ensures
        winner_handler is Err ==> instantiated(sender, msg, winner_handler, distribution_addr) == Err::<
            StateView,
            StdError,
        >(winner_handler->Err_0),
        winner_handler is Ok && distribution_addr is Err ==> instantiated(
            sender,
            msg,
            winner_handler,
            distribution_addr,
        ) == Err::<StateView, StdError>(distribution_addr->Err_0),
        instantiated(sender, msg, winner_handler, distribution_addr) matches Ok(v) ==> {
            &&& v.owner == sender
            &&& v.lottery_count == 0
            &&& v.winner_handler == winner_handler->Ok_0@
            &&& v.distribution_addr == distribution_addr->Ok_0@
            &&& v.percent_to_distributor == msg.percent_to_distributor
            &&& v.percent_to_jackpot == msg.percent_to_jackpot
        },
        winner_handler is Ok && distribution_addr is Ok ==> instantiated(
            sender,
            msg,
            winner_handler,
            distribution_addr,
        ) is Ok,
{
}

/// Only the owner may close a lottery.
pub proof fn law_removal(state: StateView, sender: Seq<char>)
    ensures
        removal(state, sender) is Ok <==> sender == state.owner,
        removal(state, sender) is Err ==> removal(state, sender) == Err::<(), ContractError>(
            ContractError::Unauthorized {  },
        ),
{
}

/// The tickets of no players are none, and adding a player adds its tickets.
pub proof fn law_tickets_sum(ps: Seq<PlayerView>, x: PlayerView)
    ensures
        tickets_sum(Seq::<PlayerView>::empty()) == 0,
        tickets_sum(ps.push(x)) == tickets_sum(ps) + x.tickets_count,
        forall|k: int| 0 <= k < ps.len() ==> #[trigger] tickets_prefix(ps, k + 1) == tickets_prefix(ps, k)
            + ps[k].tickets_count,
{
    lemma_sum_push(ps, x);
}

} // verus!
