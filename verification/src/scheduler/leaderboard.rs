use vstd::prelude::*;
use vstd::set_lib::{set_int_range, lemma_int_range, lemma_subset_equality};
use crate::bot::utils::{amount_text, format_amount};
use crate::bot::utils::text::{decimal, signed_decimal, pad_left, pad_right, decimal_string, push_signed, push_pad_left, push_pad_right};
use crate::db::models::channels::ChannelIds;
use crate::db::models::goal::{Goal, amounts_of_user, sum_i64, sums_fit_i64, amounts_of, checked_sum_i64};

verus! {

/// Entry `a` comes before entry `b` in the leaderboard: a higher total, or
/// the same total and an earlier place in the list of users.
pub open spec fn ranks_before(totals: Seq<i64>, a: int, b: int) -> bool {
    totals[a] > totals[b] || (totals[a] == totals[b] && a < b)
}

/// `order` lists the indices of `totals` from the highest total down, equal
/// totals in the order in which they were given (a stable sort by total,
/// descending).
pub open spec fn is_ranking(totals: Seq<i64>, order: Seq<usize>) -> bool {
    &&& order.len() == totals.len()
    &&& forall|p: int| 0 <= p < order.len() ==> #[trigger] order[p] < totals.len()
    &&& forall|p: int, q: int|
        0 <= p < q < order.len() ==> ranks_before(totals, #[trigger] order[p] as int, #[trigger] order[q] as int)
}

/// The indices of `totals`, highest total first; equal totals keep the order
/// in which they were given.
pub fn rank_by_total(totals: &Vec<i64>) -> (order: Vec<usize>)
    ensures
        is_ranking(totals@, order@),
{
    let n = totals.len();
    let mut order: Vec<usize> = Vec::new();
    for i in 0..n
        invariant
            n == totals.len(),
            order.len() == i,
            forall|p: int| 0 <= p < order.len() ==> #[trigger] order[p] < i,
            forall|p: int, q: int|
                0 <= p < q < order.len() ==> ranks_before(totals@, #[trigger] order[p] as int, #[trigger] order[q] as int),
    {
        let mut at: usize = 0;
        while at < order.len() && totals[order[at]] >= totals[i]
            invariant
                n == totals.len(),
                i < n,
                order.len() == i,
                at <= order.len(),
                forall|p: int| 0 <= p < order.len() ==> #[trigger] order[p] < i,
                forall|p: int| 0 <= p < at ==> totals@[#[trigger] order[p] as int] >= totals@[i as int],
            decreases order.len() - at,
        {
            at = at + 1;
        }
        proof {
            assert forall|q: int| at <= q < order.len() implies totals@[#[trigger] order[q] as int] < totals@[i as int] by {
                if at < q {
                    assert(ranks_before(totals@, order[at as int] as int, order[q] as int));
                }
            }
        }
        let ghost old_order = order@;
        order.insert(at, i);
        proof {
            assert forall|p: int| 0 <= p < order.len() implies #[trigger] order[p] < i + 1 by {
                if p < at {
                    assert(order[p] == old_order[p]);
                } else if p > at {
                    assert(order[p] == old_order[p - 1]);
                }
            }
            assert forall|p: int, q: int| 0 <= p < q < order.len() implies ranks_before(
                totals@,
                #[trigger] order[p] as int,
                #[trigger] order[q] as int,
            ) by {
                if q < at {
                    assert(order[p] == old_order[p] && order[q] == old_order[q]);
                } else if q == at {
                    assert(order[p] == old_order[p]);
                } else if p < at {
                    assert(order[p] == old_order[p] && order[q] == old_order[q - 1]);
                    assert(ranks_before(totals@, old_order[p] as int, old_order[q - 1] as int));
                } else if p == at {
                    assert(order[q] == old_order[q - 1]);
                } else {
                    assert(order[p] == old_order[p - 1] && order[q] == old_order[q - 1]);
                    assert(ranks_before(totals@, old_order[p - 1] as int, old_order[q - 1] as int));
                }
            }
        }
    }
    order
}

proof fn ranking_lists_every_entry(totals: Seq<i64>, order: Seq<usize>, j: int)
    requires
        is_ranking(totals, order),
        0 <= j < totals.len(),
    ensures
        exists|p: int| 0 <= p < order.len() && order[p] == j,
{
    let n = totals.len() as int;
    let oi = order.map_values(|x: usize| x as int);
    assert forall|a: int, b: int| 0 <= a < oi.len() && 0 <= b < oi.len() && a != b implies oi[a] != oi[b] by {
        if a < b {
            assert(ranks_before(totals, order[a] as int, order[b] as int));
        } else {
            assert(ranks_before(totals, order[b] as int, order[a] as int));
        }
    }
    assert(oi.no_duplicates());
    oi.unique_seq_to_set();
    lemma_int_range(0, n);
    assert forall|x: int| oi.to_set().contains(x) implies set_int_range(0, n).contains(x) by {
        let p = choose|p: int| 0 <= p < oi.len() && oi[p] == x;
        assert(order[p] < totals.len());
    }
    vstd::seq_lib::seq_to_set_is_finite(oi);
    lemma_subset_equality(oi.to_set(), set_int_range(0, n));
    assert(set_int_range(0, n).contains(j));
    assert(oi.to_set().contains(j));
    let p = choose|p: int| 0 <= p < oi.len() && oi[p] == j;
    assert(order[p] == j);
}

proof fn rankings_agree_below(totals: Seq<i64>, o1: Seq<usize>, o2: Seq<usize>, p: int)
    requires
        is_ranking(totals, o1),
        is_ranking(totals, o2),
        0 <= p <= totals.len(),
    ensures
        forall|q: int| 0 <= q < p ==> o1[q] == o2[q],
    decreases p,
{
    if p > 0 {
        rankings_agree_below(totals, o1, o2, p - 1);
        let k = p - 1;
        let a = o1[k] as int;
        let b = o2[k] as int;
        if a != b {
            ranking_lists_every_entry(totals, o2, a);
            ranking_lists_every_entry(totals, o1, b);
            let q = choose|q: int| 0 <= q < o2.len() && o2[q] == a;
            let r = choose|r: int| 0 <= r < o1.len() && o1[r] == b;
            if q < k {
                assert(o1[q] == a);
                assert(ranks_before(totals, o1[q] as int, o1[k] as int));
            } else if r < k {
                assert(o2[r] == b);
                assert(ranks_before(totals, o2[r] as int, o2[k] as int));
            } else {
                assert(ranks_before(totals, o2[k] as int, o2[q] as int));
                assert(ranks_before(totals, o1[k] as int, o1[r] as int));
            }
        }
    }
}

/// There is one leaderboard order only: two orders that both rank `totals`
/// by total, descending, ties in the order given, are the same.
pub proof fn ranking_is_unique(totals: Seq<i64>, o1: Seq<usize>, o2: Seq<usize>)
    requires
        is_ranking(totals, o1),
        is_ranking(totals, o2),
    ensures
        o1 == o2,
{
    rankings_agree_below(totals, o1, o2, totals.len() as int);
    assert(o1 =~= o2);
}

/// Where a user stands against the weekly goal.
#[derive(Clone, Copy, Debug, PartialEq, Eq)]
pub enum Standing {
    /// Delivered the goal or more.
    Complete,
    /// Delivered something, less than the goal.
    Partial,
    /// Delivered nothing.
    Missing,
}

/// The standing of a weekly total `value` against the goal `meta`.
pub open spec fn standing_of(value: i64, meta: i64) -> Standing {
    if value >= meta {
        Standing::Complete
    } else if value > 0 {
        Standing::Partial
    } else {
        Standing::Missing
    }
}

/// The place `pos` on the board, right-aligned in two columns.
pub open spec fn place_label(pos: nat) -> Seq<char> {
    pad_left(decimal(pos), 2)
}

/// The leaderboard line of the user `name` at place `pos` with the weekly
/// total `value`.
pub open spec fn board_line(pos: nat, name: Seq<char>, value: i64, meta: i64) -> Seq<char> {
    let place = place_label(pos);
    let who = pad_right(name, 20);
    match standing_of(value, meta) {
        Standing::Complete => "+ "@ + place + ". "@ + who + " | ✅ R$ "@ + amount_text((value as u64) as nat) + " sujo"@,
        Standing::Partial => "\u{1b}[2;33m! "@ + place + ". "@ + who + " | ⚠️ R$ "@ + amount_text((value as u64) as nat)
            + " sujo\u{1b}[0m"@,
        Standing::Missing => "- "@ + place + ". "@ + who + " | ❌ R$ 0 sujo"@,
    }
}

/// The lines, each ended by a newline, of the first `k` places of the board
/// whose users have the standing `standing`.
pub open spec fn standing_lines(
    names: Seq<Seq<char>>,
    totals: Seq<i64>,
    order: Seq<usize>,
    meta: i64,
    standing: Standing,
    k: nat,
) -> Seq<char>
    decreases k,
{
    if k == 0 {
        Seq::empty()
    } else {
        let rest = standing_lines(names, totals, order, meta, standing, (k - 1) as nat);
        let j = order[k - 1] as int;
        if standing_of(totals[j], meta) == standing {
            rest + board_line(k, names[j], totals[j], meta) + seq!['\n']
        } else {
            rest
        }
    }
}

/// A code block opened by `fence` around `lines`; nothing when there are no
/// lines.
pub open spec fn code_block(fence: Seq<char>, lines: Seq<char>) -> Seq<char> {
    if lines.len() == 0 {
        Seq::empty()
    } else {
        fence + lines + "```\n"@
    }
}

/// The weekly leaderboard message: a heading, the users who reached the goal,
/// those who delivered part of it, those who delivered nothing (each group
/// in board order, places counted over the whole board), and the grand total.
pub open spec fn leaderboard_text(
    names: Seq<Seq<char>>,
    totals: Seq<i64>,
    order: Seq<usize>,
    meta: i64,
    total: i64,
) -> Seq<char> {
    let n = order.len();
    "```ini\n[📊 LEADERBOARD - Semana Atual]\n```\n\n"@
        + code_block("```diff\n"@, standing_lines(names, totals, order, meta, Standing::Complete, n))
        + code_block("```ansi\n"@, standing_lines(names, totals, order, meta, Standing::Partial, n))
        + code_block("```diff\n"@, standing_lines(names, totals, order, meta, Standing::Missing, n))
        + "```ini\n[💰 TOTAL GERAL: R$ "@ + amount_text((total as u64) as nat) + " ("@ + signed_decimal(total as int)
        + ")]\n```"@
}

/// The places of the board (counted from 0, in board order) whose users
/// have the standing `standing`.
pub open spec fn places_with(totals: Seq<i64>, order: Seq<usize>, meta: i64, standing: Standing) -> Seq<int> {
    Seq::new(order.len(), |p: int| p).filter(|p: int| standing_of(totals[order[p] as int], meta) == standing)
}

/// The line of the board at place `p` (counted from 0), ended by a newline.
pub open spec fn placed_line(names: Seq<Seq<char>>, totals: Seq<i64>, order: Seq<usize>, meta: i64, p: int) -> Seq<char> {
    board_line((p + 1) as nat, names[order[p] as int], totals[order[p] as int], meta) + seq!['\n']
}

/// The block of the standing `standing`: the subsequence of the ranked board
/// whose users have that standing, line after line in board order.
pub open spec fn board_block(names: Seq<Seq<char>>, totals: Seq<i64>, order: Seq<usize>, meta: i64, standing: Standing) -> Seq<char> {
    places_with(totals, order, meta, standing).map_values(|p: int| placed_line(names, totals, order, meta, p)).flatten()
}

proof fn standing_lines_are_the_block_prefix(
    names: Seq<Seq<char>>,
    totals: Seq<i64>,
    order: Seq<usize>,
    meta: i64,
    standing: Standing,
    k: nat,
)
    requires
        k <= order.len(),
    ensures
        standing_lines(names, totals, order, meta, standing, k) == Seq::new(k, |p: int| p).filter(
            |p: int| standing_of(totals[order[p] as int], meta) == standing,
        ).map_values(|p: int| placed_line(names, totals, order, meta, p)).flatten(),
    decreases k,
{
    let pred = |p: int| standing_of(totals[order[p] as int], meta) == standing;
    let f = |p: int| placed_line(names, totals, order, meta, p);
    if k == 0 {
        reveal(Seq::filter);
        assert(Seq::new(0, |p: int| p).filter(pred) =~= Seq::<int>::empty());
        assert(Seq::<int>::empty().map_values(f) =~= Seq::<Seq<char>>::empty());
    } else {
        let km = (k - 1) as nat;
        standing_lines_are_the_block_prefix(names, totals, order, meta, standing, km);
        let prev = Seq::new(km, |p: int| p);
        assert(Seq::new(k, |p: int| p) =~= prev.push(km as int));
        prev.lemma_filter_push(km as int, pred);
        let fp = prev.filter(pred);
        assert(fp.push(km as int).map_values(f) =~= fp.map_values(f).push(f(km as int)));
        fp.map_values(f).lemma_flatten_push(f(km as int));
        assert(placed_line(names, totals, order, meta, km as int) == board_line(
            k,
            names[order[k - 1] as int],
            totals[order[k - 1] as int],
            meta,
        ) + seq!['\n']);
    }
}

proof fn places_prefix_in_order(totals: Seq<i64>, order: Seq<usize>, meta: i64, standing: Standing, k: nat)
    ensures
        ({
            let ps = Seq::new(k, |p: int| p).filter(|p: int| standing_of(totals[order[p] as int], meta) == standing);
            &&& forall|i: int, j: int| 0 <= i < j < ps.len() ==> #[trigger] ps[i] < #[trigger] ps[j]
            &&& forall|i: int| 0 <= i < ps.len() ==> 0 <= #[trigger] ps[i] < k && standing_of(
                totals[order[ps[i]] as int],
                meta,
            ) == standing
            &&& forall|p: int| 0 <= p < k && standing_of(totals[order[p] as int], meta) == standing ==> #[trigger] ps.contains(p)
        }),
    decreases k,
{
    let pred = |p: int| standing_of(totals[order[p] as int], meta) == standing;
    if k == 0 {
        reveal(Seq::filter);
        assert(Seq::new(0, |p: int| p).filter(pred) =~= Seq::<int>::empty());
    } else {
        let km = (k - 1) as nat;
        places_prefix_in_order(totals, order, meta, standing, km);
        let prev = Seq::new(km, |p: int| p);
        assert(Seq::new(k, |p: int| p) =~= prev.push(km as int));
        prev.lemma_filter_push(km as int, pred);
        let fp = prev.filter(pred);
        let ps = Seq::new(k, |p: int| p).filter(pred);
        assert forall|p: int| 0 <= p < k && pred(p) implies #[trigger] ps.contains(p) by {
            if p < km {
                assert(fp.contains(p));
                let i = choose|i: int| 0 <= i < fp.len() && fp[i] == p;
                if pred(km as int) {
                    assert(ps[i] == p);
                }
            } else {
                assert(ps[ps.len() - 1] == p);
            }
        }
    }
}

/// The places of each standing block are those of the board with that
/// standing, every one of them, each once, in increasing order.
pub proof fn block_places_follow_the_board(totals: Seq<i64>, order: Seq<usize>, meta: i64, standing: Standing)
    ensures
        ({
            let ps = places_with(totals, order, meta, standing);
            &&& forall|i: int, j: int| 0 <= i < j < ps.len() ==> #[trigger] ps[i] < #[trigger] ps[j]
            &&& forall|i: int| 0 <= i < ps.len() ==> 0 <= #[trigger] ps[i] < order.len() && standing_of(
                totals[order[ps[i]] as int],
                meta,
            ) == standing
            &&& forall|p: int| 0 <= p < order.len() && standing_of(totals[order[p] as int], meta) == standing ==> #[trigger] ps.contains(p)
        }),
{
    places_prefix_in_order(totals, order, meta, standing, order.len());
}

/// Within every standing block the lines keep the board's order: the
/// message lists, after its heading, the block of those who reached the
/// goal, then of those who delivered part of it, then of those who delivered
/// nothing, each being the lines of the ranked board with that standing in
/// board order (place `p` before place `q` whenever `p < q`), and ends with
/// the grand total.
pub proof fn leaderboard_blocks_follow_the_board(
    names: Seq<Seq<char>>,
    totals: Seq<i64>,
    order: Seq<usize>,
    meta: i64,
    total: i64,
)
    ensures
        leaderboard_text(names, totals, order, meta, total) == "```ini\n[📊 LEADERBOARD - Semana Atual]\n```\n\n"@
            + code_block("```diff\n"@, board_block(names, totals, order, meta, Standing::Complete))
            + code_block("```ansi\n"@, board_block(names, totals, order, meta, Standing::Partial))
            + code_block("```diff\n"@, board_block(names, totals, order, meta, Standing::Missing))
            + "```ini\n[💰 TOTAL GERAL: R$ "@ + amount_text((total as u64) as nat) + " ("@ + signed_decimal(total as int)
            + ")]\n```"@,
{
    standing_lines_are_the_block_prefix(names, totals, order, meta, Standing::Complete, order.len());
    standing_lines_are_the_block_prefix(names, totals, order, meta, Standing::Partial, order.len());
    standing_lines_are_the_block_prefix(names, totals, order, meta, Standing::Missing, order.len());
}

/// The standing of a weekly total against the goal.
pub fn standing(value: i64, meta: i64) -> (r: Standing)
    ensures
        r == standing_of(value, meta),
{
    if value >= meta {
        Standing::Complete
    } else if value > 0 {
        Standing::Partial
    } else {
        Standing::Missing
    }
}

/// The leaderboard line of `name` at place `pos`.
pub fn board_line_text(pos: u64, name: &str, value: i64, meta: i64) -> (s: String)
    ensures
        s@ == board_line(pos as nat, name@, value, meta),
{
    let place = decimal_string(pos);
    let mut s = String::new();
    match standing(value, meta) {
        Standing::Complete => {
            s.append("+ ");
            push_pad_left(&mut s, place.as_str(), 2);
            s.append(". ");
            push_pad_right(&mut s, name, 20);
            s.append(" | ✅ R$ ");
            let amount = format_amount(value as u64);
            s.append(amount.as_str());
            s.append(" sujo");
        },
        Standing::Partial => {
            s.append("\u{1b}[2;33m! ");
            push_pad_left(&mut s, place.as_str(), 2);
            s.append(". ");
            push_pad_right(&mut s, name, 20);
            s.append(" | ⚠️ R$ ");
            let amount = format_amount(value as u64);
            s.append(amount.as_str());
            s.append(" sujo\u{1b}[0m");
        },
        Standing::Missing => {
            s.append("- ");
            push_pad_left(&mut s, place.as_str(), 2);
            s.append(". ");
            push_pad_right(&mut s, name, 20);
            s.append(" | ❌ R$ 0 sujo");
        },
    }
    s
}

fn push_code_block(out: &mut String, fence: &str, lines: &String)
    ensures
        final(out)@ == old(out)@ + code_block(fence@, lines@),
{
    if lines.unicode_len() > 0 {
        out.append(fence);
        out.append(lines.as_str());
        out.append("```\n");
    }
}

/// The leaderboard message for the users `names` with weekly `totals`,
/// listed in `order`, against the goal `meta`, with the grand total `total`.
pub fn leaderboard_message(
    names: &Vec<String>,
    totals: &Vec<i64>,
    order: &Vec<usize>,
    meta: i64,
    total: i64,
) -> (msg: String)
    requires
        names.len() == totals.len(),
        is_ranking(totals@, order@),
    ensures
        msg@ == leaderboard_text(names@.map_values(|s: String| s@), totals@, order@, meta, total),
        msg@ == "```ini\n[📊 LEADERBOARD - Semana Atual]\n```\n\n"@ + code_block(
            "```diff\n"@,
            board_block(names@.map_values(|s: String| s@), totals@, order@, meta, Standing::Complete),
        ) + code_block(
            "```ansi\n"@,
            board_block(names@.map_values(|s: String| s@), totals@, order@, meta, Standing::Partial),
        ) + code_block(
            "```diff\n"@,
            board_block(names@.map_values(|s: String| s@), totals@, order@, meta, Standing::Missing),
        ) + "```ini\n[💰 TOTAL GERAL: R$ "@ + amount_text((total as u64) as nat) + " ("@ + signed_decimal(total as int)
            + ")]\n```"@,
{
    let ghost nv = names@.map_values(|s: String| s@);
    proof {
        leaderboard_blocks_follow_the_board(nv, totals@, order@, meta, total);
    }
    let mut complete = String::new();
    let mut partial = String::new();
    let mut missing = String::new();
    for k in 0..order.len()
        invariant
            names.len() == totals.len(),
            is_ranking(totals@, order@),
            nv == names@.map_values(|s: String| s@),
            complete@ == standing_lines(nv, totals@, order@, meta, Standing::Complete, k as nat),
            partial@ == standing_lines(nv, totals@, order@, meta, Standing::Partial, k as nat),
            missing@ == standing_lines(nv, totals@, order@, meta, Standing::Missing, k as nat),
    {
        let j = order[k];
        assert(j < totals.len());
        let value = totals[j];
        let line = board_line_text((k + 1) as u64, names[j].as_str(), value, meta);
        assert(names[j as int]@ == nv[j as int]);
        match standing(value, meta) {
            Standing::Complete => {
                complete.append(line.as_str());
                complete.append("\n");
            },
            Standing::Partial => {
                partial.append(line.as_str());
                partial.append("\n");
            },
            Standing::Missing => {
                missing.append(line.as_str());
                missing.append("\n");
            },
        }
        proof {
            reveal_strlit("\n");
        }
    }
    let mut msg = String::new();
    msg.append("```ini\n[📊 LEADERBOARD - Semana Atual]\n```\n\n");
    push_code_block(&mut msg, "```diff\n", &complete);
    push_code_block(&mut msg, "```ansi\n", &partial);
    push_code_block(&mut msg, "```diff\n", &missing);
    msg.append("```ini\n[💰 TOTAL GERAL: R$ ");
    let amount = format_amount(total as u64);
    msg.append(amount.as_str());
    msg.append(" (");
    push_signed(&mut msg, total);
    msg.append(")]\n```");
    msg
}

/// The weekly total of each user of `users`: the sum of the amounts of their
/// goals (a user id is compared with a goal's `user_id` as `i64`).
pub open spec fn user_totals(users: Seq<u64>, goals: Seq<Goal>) -> Seq<i64> {
    Seq::new(users.len(), |i: int| sum_i64(amounts_of_user(goals, users[i] as i64)) as i64)
}

/// The totals that are above zero, in their order.
pub open spec fn positive_totals(totals: Seq<i64>) -> Seq<i64>
    decreases totals.len(),
{
    if totals.len() == 0 {
        Seq::empty()
    } else {
        let rest = positive_totals(totals.drop_last());
        if totals.last() > 0 {
            rest.push(totals.last())
        } else {
            rest
        }
    }
}

/// Every user's total, and the grand total of the totals above zero, can be
/// added up in 64-bit arithmetic.
pub open spec fn leaderboard_sums_fit(users: Seq<u64>, goals: Seq<Goal>) -> bool {
    &&& forall|i: int| 0 <= i < users.len() ==> sums_fit_i64(#[trigger] amounts_of_user(goals, users[i] as i64))
    &&& sums_fit_i64(positive_totals(user_totals(users, goals)))
}

/// The grand total shown under the board: the sum of the users' totals that
/// are above zero.
pub open spec fn grand_total(users: Seq<u64>, goals: Seq<Goal>) -> i64 {
    sum_i64(positive_totals(user_totals(users, goals))) as i64
}

/// The weekly total of `user` over `goals`; `None` where the sum overflows.
pub fn user_total(goals: &Vec<Goal>, user: u64) -> (r: Option<i64>)
    ensures
        r is Some <==> sums_fit_i64(amounts_of_user(goals@, user as i64)),
        r matches Some(v) ==> v == sum_i64(amounts_of_user(goals@, user as i64)),
{
    let amounts = amounts_of(goals, user as i64);
    checked_sum_i64(&amounts)
}

/// The weekly leaderboard posted on Mondays: `users` (with their display
/// `names`) ranked by the total of their approved `goals`, against the
/// current goal `current_meta`. `None` exactly where a sum overflows 64 bits.
pub fn build_leaderboard(
    users: &Vec<u64>,
    names: &Vec<String>,
    goals: &Vec<Goal>,
    current_meta: i64,
) -> (r: Option<String>)
    requires
        users.len() == names.len(),
        users.len() < i32::MAX,
    ensures
        r is Some <==> leaderboard_sums_fit(users@, goals@),
        r matches Some(msg) ==> exists|order: Seq<usize>|
            is_ranking(user_totals(users@, goals@), order) && msg@ == leaderboard_text(
                names@.map_values(|s: String| s@),
                user_totals(users@, goals@),
                order,
                current_meta,
                grand_total(users@, goals@),
            ),
{
    let ghost all = user_totals(users@, goals@);
    let mut totals: Vec<i64> = Vec::new();
    let mut positives: Vec<i64> = Vec::new();
    for i in 0..users.len()
        invariant
            all == user_totals(users@, goals@),
            totals@ == all.take(i as int),
            positives@ == positive_totals(all.take(i as int)),
            forall|k: int| 0 <= k < i ==> sums_fit_i64(#[trigger] amounts_of_user(goals@, users@[k] as i64)),
    {
        proof {
            assert(all.take(i + 1).drop_last() == all.take(i as int));
        }
        match user_total(goals, users[i]) {
            Some(t) => {
                totals.push(t);
                if t > 0 {
                    positives.push(t);
                }
            },
            None => {
                return None;
            },
        }
    }
    proof {
        assert(all.take(users.len() as int) == all);
    }
    match checked_sum_i64(&positives) {
        Some(total) => {
            let order = rank_by_total(&totals);
            let msg = leaderboard_message(names, &totals, &order, current_meta, total);
            Some(msg)
        },
        None => None,
    }
}

/// `message` is the leaderboard of `users` (shown by `names`) over `goals`
/// against `current_meta`, for some ranking of their totals.
pub open spec fn is_leaderboard(message: Seq<char>, users: Seq<u64>, names: Seq<String>, goals: Seq<Goal>, current_meta: i64) -> bool {
    exists|order: Seq<usize>|
        is_ranking(user_totals(users, goals), order) && message == leaderboard_text(
            names.map_values(|s: String| s@),
            user_totals(users, goals),
            order,
            current_meta,
            grand_total(users, goals),
        )
}

/// The users of (user, channel) pairs, in their order.
pub fn user_ids(pairs: &Vec<(u64, u64)>) -> (r: Vec<u64>)
    ensures
        r@ == pairs@.map_values(|p: (u64, u64)| p.0),
{
    let mut r: Vec<u64> = Vec::new();
    for i in 0..pairs.len()
        invariant
            r@ == pairs@.take(i as int).map_values(|p: (u64, u64)| p.0),
    {
        proof {
            assert(pairs@.take(i + 1) == pairs@.take(i as int).push(pairs@[i as int]));
        }
        r.push(pairs[i].0);
    }
    proof {
        assert(pairs@.take(pairs@.len() as int) == pairs@);
    }
    r
}

/// Where the weekly leaderboard job stands.
pub enum BoardState {
    Start,
    LoadingChannels,
    /// `channel` is the goal channel, where the board is posted.
    LoadingWeek { channel: u64 },
    LoadingMeta { channel: u64, week: Vec<Goal> },
    LoadingUsers { channel: u64, week: Vec<Goal>, current_meta: i64 },
    /// The display names of the first `names.len()` users are known.
    Naming { channel: u64, week: Vec<Goal>, current_meta: i64, users: Vec<u64>, names: Vec<String> },
    Posting,
    Done,
}

/// What came back from the last thing done; `None` where a read failed.
pub enum BoardEvent {
    Begin,
    Channels(Option<ChannelIds>),
    /// The goals approved this week.
    Week(Option<Vec<Goal>>),
    CurrentMeta(Option<i64>),
    /// Every user with an individual channel, as (user, channel).
    Users(Option<Vec<(u64, u64)>>),
    /// The display name of the user asked for.
    Name(String),
    /// The board was posted, or posting it failed (which is only logged).
    Posted,
}

/// What to do next in the leaderboard job.
pub enum BoardAction {
    LoadChannels,
    LoadWeek,
    LoadCurrentMeta,
    LoadUsers,
    /// Find the display name of `user` in the guild.
    LoadName { user: u64 },
    /// Too many users to place on a 32-bit counter: the job fails there.
    TooManyUsers,
    /// A 64-bit sum overflows: the job fails there.
    Overflowed,
    /// Post `message` in `channel`, then stop.
    Post { channel: u64, message: String },
    Stop,
}

/// What follows once every user has a name: the board built from them,
/// posted in `channel`.
pub open spec fn board_finish_is(
    channel: u64,
    week: Seq<Goal>,
    current_meta: i64,
    users: Seq<u64>,
    names: Seq<String>,
    next: BoardState,
    action: BoardAction,
) -> bool {
    if users.len() >= i32::MAX {
        next is Done && action is TooManyUsers
    } else if !leaderboard_sums_fit(users, week) {
        next is Done && action is Overflowed
    } else {
        &&& next is Posting
        &&& action matches BoardAction::Post { channel: c, message } && c == channel && is_leaderboard(
            message@,
            users,
            names,
            week,
            current_meta,
        )
    }
}

/// The step from `state` on `event`: the channels, the week's approved
/// goals, the current goal and the users, then each user's display name in
/// turn, and the board in the goal channel; a failed read stops.
pub open spec fn board_step_is(state: BoardState, event: BoardEvent, next: BoardState, action: BoardAction) -> bool {
    match (state, event) {
        (BoardState::Start, BoardEvent::Begin) => next is LoadingChannels && action is LoadChannels,
        (BoardState::LoadingChannels, BoardEvent::Channels(Some(ids))) => next matches BoardState::LoadingWeek { channel }
            && channel == ids.meta_channel_id && action is LoadWeek,
        (BoardState::LoadingWeek { channel }, BoardEvent::Week(Some(week))) => {
            &&& next matches BoardState::LoadingMeta { channel: c, week: w } && c == channel && w@ == week@
            &&& action is LoadCurrentMeta
        },
        (BoardState::LoadingMeta { channel, week }, BoardEvent::CurrentMeta(Some(m))) => {
            &&& next matches BoardState::LoadingUsers { channel: c, week: w, current_meta } && c == channel && w@
                == week@ && current_meta == m
            &&& action is LoadUsers
        },
        (BoardState::LoadingUsers { channel, week, current_meta }, BoardEvent::Users(Some(pairs))) => {
            let users = pairs@.map_values(|p: (u64, u64)| p.0);
            if users.len() == 0 {
                board_finish_is(channel, week@, current_meta, users, Seq::empty(), next, action)
            } else {
                &&& next matches BoardState::Naming { channel: c, week: w, current_meta: m, users: u, names }
                    && c == channel && w@ == week@ && m == current_meta && u@ == users && names@.len() == 0
                &&& action == BoardAction::LoadName { user: users[0] }
            }
        },
        (BoardState::Naming { channel, week, current_meta, users, names }, BoardEvent::Name(n)) => if names@.len()
            < users@.len() {
            let named = names@.push(n);
            if named.len() < users@.len() {
                &&& next matches BoardState::Naming { channel: c, week: w, current_meta: m, users: u, names: ns }
                    && c == channel && w@ == week@ && m == current_meta && u@ == users@ && ns@ == named
                &&& action == BoardAction::LoadName { user: users@[named.len() as int] }
            } else {
                board_finish_is(channel, week@, current_meta, users@, named, next, action)
            }
        } else {
            next is Done && action is Stop
        },
        _ => next is Done && action is Stop,
    }
}

/// Builds the board once every user has a name.
fn board_finish(channel: u64, week: Vec<Goal>, current_meta: i64, users: Vec<u64>, names: Vec<String>) -> (r: (
    BoardState,
    BoardAction,
))
    requires
        users@.len() == names@.len(),
    ensures
        board_finish_is(channel, week@, current_meta, users@, names@, r.0, r.1),
{
    if users.len() >= 2147483647 {
        return (BoardState::Done, BoardAction::TooManyUsers);
    }
    match build_leaderboard(&users, &names, &week, current_meta) {
        Some(message) => (BoardState::Posting, BoardAction::Post { channel, message }),
        None => (BoardState::Done, BoardAction::Overflowed),
    }
}

/// The next step of the leaderboard job.
pub fn board_step(state: BoardState, event: BoardEvent) -> (r: (BoardState, BoardAction))
    ensures
        board_step_is(state, event, r.0, r.1),
{
    match (state, event) {
        (BoardState::Start, BoardEvent::Begin) => (BoardState::LoadingChannels, BoardAction::LoadChannels),
        (BoardState::LoadingChannels, BoardEvent::Channels(Some(ids))) => (
            BoardState::LoadingWeek { channel: ids.meta_channel_id },
            BoardAction::LoadWeek,
        ),
        (BoardState::LoadingWeek { channel }, BoardEvent::Week(Some(week))) => (
            BoardState::LoadingMeta { channel, week },
            BoardAction::LoadCurrentMeta,
        ),
        (BoardState::LoadingMeta { channel, week }, BoardEvent::CurrentMeta(Some(m))) => (
            BoardState::LoadingUsers { channel, week, current_meta: m },
            BoardAction::LoadUsers,
        ),
        (BoardState::LoadingUsers { channel, week, current_meta }, BoardEvent::Users(Some(pairs))) => {
            let users = user_ids(&pairs);
            if users.len() == 0 {
                let names: Vec<String> = Vec::new();
                board_finish(channel, week, current_meta, users, names)
            } else {
                let first = users[0];
                let names: Vec<String> = Vec::new();
                (BoardState::Naming { channel, week, current_meta, users, names }, BoardAction::LoadName { user: first })
            }
        },
        (BoardState::Naming { channel, week, current_meta, users, names }, BoardEvent::Name(n)) => if names.len()
            < users.len() {
            let mut names = names;
            names.push(n);
            if names.len() < users.len() {
                let user = users[names.len()];
                (BoardState::Naming { channel, week, current_meta, users, names }, BoardAction::LoadName { user })
            } else {
                board_finish(channel, week, current_meta, users, names)
            }
        } else {
            (BoardState::Done, BoardAction::Stop)
        },
        _ => (BoardState::Done, BoardAction::Stop),
    }
}

} // verus!
