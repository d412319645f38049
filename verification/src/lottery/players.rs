use vstd::prelude::*;
use crate::lottery::state::{Player, PlayerView, PlayerRange, players_view};

verus! {

/// Tickets held together by the first `k` players.
pub open spec fn tickets_prefix(ps: Seq<PlayerView>, k: int) -> int
    decreases k,
{
    if k <= 0 {
        0
    } else {
        tickets_prefix(ps, k - 1) + ps[k - 1].tickets_count
    }
}

/// Tickets held by all players.
pub open spec fn tickets_sum(ps: Seq<PlayerView>) -> int {
    tickets_prefix(ps, ps.len() as int)
}

/// Each running total of tickets, in the order of the players, fits in an `i32`.
pub open spec fn tickets_sum_fits(ps: Seq<PlayerView>) -> bool {
    forall|k: int| 0 <= k <= ps.len() ==> i32::MIN <= #[trigger] tickets_prefix(ps, k) <= i32::MAX
}

/// `i` is the first player whose address is `a`.
pub open spec fn is_first_with_addr(ps: Seq<PlayerView>, a: Seq<char>, i: int) -> bool {
    &&& 0 <= i < ps.len()
    &&& ps[i].addr == a
    &&& forall|j: int| 0 <= j < i ==> ps[j].addr != a
}

/// The index of the first player with address `a`, or -1 when there is none.
pub open spec fn index_of_addr(ps: Seq<PlayerView>, a: Seq<char>) -> int {
    if exists|i: int| is_first_with_addr(ps, a, i) {
        choose|i: int| is_first_with_addr(ps, a, i)
    } else {
        -1
    }
}

/// The draw `r` falls into the tickets of player `i`: the players' tickets are
/// laid out one after the other, starting at 0.
pub open spec fn holds_draw(ps: Seq<PlayerView>, r: int, i: int) -> bool {
    tickets_prefix(ps, i) <= r < tickets_prefix(ps, i + 1)
}

pub open spec fn is_first_holding(ps: Seq<PlayerView>, r: int, i: int) -> bool {
    &&& 0 <= i < ps.len()
    &&& holds_draw(ps, r, i)
    &&& forall|j: int| 0 <= j < i ==> !holds_draw(ps, r, j)
}

/// The index of the first player whose tickets hold the draw `r`, or -1.
pub open spec fn winner_index(ps: Seq<PlayerView>, r: int) -> int {
    if exists|i: int| is_first_holding(ps, r, i) {
        choose|i: int| is_first_holding(ps, r, i)
    } else {
        -1
    }
}

pub proof fn lemma_index_of_addr_is(ps: Seq<PlayerView>, a: Seq<char>, i: int)
    requires
        is_first_with_addr(ps, a, i),
    ensures
        index_of_addr(ps, a) == i,
{
    let k = index_of_addr(ps, a);
    assert(is_first_with_addr(ps, a, k));
    if k < i {
        assert(ps[k].addr != a);
    } else if i < k {
        assert(ps[i].addr != a);
    }
}

pub proof fn lemma_index_of_addr_absent(ps: Seq<PlayerView>, a: Seq<char>)
    requires
        forall|j: int| 0 <= j < ps.len() ==> ps[j].addr != a,
    ensures
        index_of_addr(ps, a) == -1,
{
    if exists|i: int| is_first_with_addr(ps, a, i) {
        let i = choose|i: int| is_first_with_addr(ps, a, i);
        assert(ps[i].addr == a);
    }
}

/// When some player has address `a`, `index_of_addr` finds the first one, at
/// or before any player with that address.
pub proof fn lemma_index_of_addr_found(ps: Seq<PlayerView>, a: Seq<char>, i: int)
    requires
        0 <= i < ps.len(),
        ps[i].addr == a,
    ensures
        is_first_with_addr(ps, a, index_of_addr(ps, a)),
        index_of_addr(ps, a) <= i,
    decreases i,
{
    if forall|j: int| 0 <= j < i ==> ps[j].addr != a {
        lemma_index_of_addr_is(ps, a, i);
    } else {
        let j = choose|j: int| 0 <= j < i && ps[j].addr == a;
        lemma_index_of_addr_found(ps, a, j);
    }
}

pub proof fn lemma_winner_index_is(ps: Seq<PlayerView>, r: int, i: int)
    requires
        is_first_holding(ps, r, i),
    ensures
        winner_index(ps, r) == i,
{
    let k = winner_index(ps, r);
    assert(is_first_holding(ps, r, k));
    if k < i {
        assert(!holds_draw(ps, r, k));
    } else if i < k {
        assert(!holds_draw(ps, r, i));
    }
}

pub proof fn lemma_winner_index_absent(ps: Seq<PlayerView>, r: int)
    requires
        forall|j: int| 0 <= j < ps.len() ==> !holds_draw(ps, r, j),
    ensures
        winner_index(ps, r) == -1,
{
    if exists|i: int| is_first_holding(ps, r, i) {
        let i = choose|i: int| is_first_holding(ps, r, i);
        assert(holds_draw(ps, r, i));
    }
}

/// The index of the first player with the address `addr`.
pub fn find_player(players: &Vec<Player>, addr: &String) -> (res: Option<usize>)
    ensures
        match res {
            Some(i) => index_of_addr(players_view(players@), addr@) == i,
            None => index_of_addr(players_view(players@), addr@) == -1,
        },
{
    let ghost ps = players_view(players@);
    let n = players.len();
    let mut i: usize = 0;
    while i < n
        invariant
            n == players@.len(),
            ps == players_view(players@),
            i <= n,
            forall|j: int| 0 <= j < i ==> ps[j].addr != addr@,
        decreases n - i,
    {
        if players[i].addr == *addr {
            proof {
                lemma_index_of_addr_is(ps, addr@, i as int);
            }
            return Some(i);
        }
        i = i + 1;
    }
    proof {
        lemma_index_of_addr_absent(ps, addr@);
    }
    None
}

/// The total number of tickets, or `None` when a running total leaves the
/// range of `i32` (where summing them as `i32` would overflow).
pub fn tickets_total(players: &Vec<Player>) -> (res: Option<i32>)
    ensures
        res is Some <==> tickets_sum_fits(players_view(players@)),
        res matches Some(s) ==> s == tickets_sum(players_view(players@)),
{
    let ghost ps = players_view(players@);
    let n = players.len();
    let mut acc: i32 = 0;
    let mut i: usize = 0;
    while i < n
        invariant
            n == players@.len(),
            ps == players_view(players@),
            i <= n,
            acc == tickets_prefix(ps, i as int),
            forall|k: int| 0 <= k <= i ==> i32::MIN <= #[trigger] tickets_prefix(ps, k) <= i32::MAX,
        decreases n - i,
    {
        match acc.checked_add(players[i].tickets_count) {
            Some(next) => {
                acc = next;
                i = i + 1;
            },
            None => {
                assert(!(i32::MIN <= tickets_prefix(ps, i + 1) <= i32::MAX));
                return None;
            },
        }
    }
    Some(acc)
}

/// The range of draws that each player wins with: player `i` holds the draws
/// from the tickets of the players before it up to, but not including, that
/// count plus its own tickets.
pub fn player_ranges(players: &Vec<Player>) -> (ranges: Vec<PlayerRange>)
    requires
        tickets_sum_fits(players_view(players@)),
    ensures
        ranges@.len() == players@.len(),
        forall|i: int|
            0 <= i < ranges@.len() ==> {
                &&& (#[trigger] ranges@[i]).addr@ == players@[i].addr@
                &&& ranges@[i].tickets_range.start == tickets_prefix(players_view(players@), i)
                &&& ranges@[i].tickets_range.end == tickets_prefix(players_view(players@), i + 1)
            },
{
    let ghost ps = players_view(players@);
    let n = players.len();
    let mut ranges: Vec<PlayerRange> = Vec::new();
    let mut prev_num: i32 = 0;
    let mut i: usize = 0;
    while i < n
        invariant
            n == players@.len(),
            ps == players_view(players@),
            tickets_sum_fits(ps),
            i <= n,
            prev_num == tickets_prefix(ps, i as int),
            ranges@.len() == i,
            forall|j: int|
                0 <= j < i ==> {
                    &&& (#[trigger] ranges@[j]).addr@ == players@[j].addr@
                    &&& ranges@[j].tickets_range.start == tickets_prefix(ps, j)
                    &&& ranges@[j].tickets_range.end == tickets_prefix(ps, j + 1)
                },
        decreases n - i,
    {
        assert(i32::MIN <= tickets_prefix(ps, i + 1) <= i32::MAX);
        let last_num = players[i].tickets_count + prev_num;
        ranges.push(PlayerRange { addr: players[i].addr.clone(), tickets_range: prev_num..last_num });
        prev_num = last_num;
        i = i + 1;
    }
    ranges
}

/// The first range that holds the draw `r`.
pub fn find_winner(ranges: &Vec<PlayerRange>, r: i32) -> (res: Option<usize>)
    ensures
        match res {
            Some(i) => {
                &&& i < ranges@.len()
                &&& ranges@[i as int].tickets_range.start <= r < ranges@[i as int].tickets_range.end
                &&& forall|j: int| 0 <= j < i ==>
                    !((#[trigger] ranges@[j]).tickets_range.start <= r < ranges@[j].tickets_range.end)
            },
            None => forall|j: int| 0 <= j < ranges@.len() ==>
                !((#[trigger] ranges@[j]).tickets_range.start <= r < ranges@[j].tickets_range.end),
        },
{
    let n = ranges.len();
    let mut i: usize = 0;
    while i < n
        invariant
            n == ranges@.len(),
            i <= n,
            forall|j: int| 0 <= j < i ==>
                !((#[trigger] ranges@[j]).tickets_range.start <= r < ranges@[j].tickets_range.end),
        decreases n - i,
    {
        if r >= ranges[i].tickets_range.start && r < ranges[i].tickets_range.end {
            return Some(i);
        }
        i = i + 1;
    }
    None
}

} // verus!
