use vstd::prelude::*;

use crate::counter::CounterView;
use crate::counter::clamped_done;
use crate::progress::Progress;

verus! {

/// The counter state after the contributions `ps` are recorded in
/// order, one `recorded` step per element.
pub open spec fn recorded_all(c: CounterView, ps: Seq<Progress>) -> CounterView
    decreases ps.len(),
{
    if ps.len() == 0 {
        c
    } else {
        recorded_all(c, ps.drop_last()).recorded(ps.last())
    }
}

/// The sum of the clamped done amounts of the contributions `ps`.
pub open spec fn sum_clamped_done(ps: Seq<Progress>) -> int
    decreases ps.len(),
{
    if ps.len() == 0 {
        0
    } else {
        sum_clamped_done(ps.drop_last()) + clamped_done(ps.last())
    }
}

/// The sum of the totals of the contributions `ps`.
pub open spec fn sum_total(ps: Seq<Progress>) -> int
    decreases ps.len(),
{
    if ps.len() == 0 {
        0
    } else {
        sum_total(ps.drop_last()) + ps.last().total
    }
}

/// Law: recording a sequence of contributions adds exactly the sum of
/// the clamped done amounts to the visible done count and the sum of
/// the totals to the visible total — so a visible read after all
/// contributions of a cycle have been recorded is their componentwise
/// sum over the cycle's starting state. Nothing else changes: the
/// hidden counters and the persisted baseline are untouched.
pub proof fn lemma_record_sequence(c: CounterView, ps: Seq<Progress>)
    ensures
        recorded_all(c, ps).done == c.done + sum_clamped_done(ps),
        recorded_all(c, ps).total == c.total + sum_total(ps),
        recorded_all(c, ps).done_hidden == c.done_hidden,
        recorded_all(c, ps).total_hidden == c.total_hidden,
        recorded_all(c, ps).persisted_done == c.persisted_done,
        recorded_all(c, ps).persisted_total == c.persisted_total,
        recorded_all(c, ps).persisted_hidden_done == c.persisted_hidden_done,
        recorded_all(c, ps).persisted_hidden_total == c.persisted_hidden_total,
    decreases ps.len(),
{
    if ps.len() > 0 {
        lemma_record_sequence(c, ps.drop_last());
    }
}

/// Law: two recordings commute — recording `p` and then `q` leaves
/// the counter in the same state as recording `q` and then `p`.
pub proof fn lemma_record_commutes(c: CounterView, p: Progress, q: Progress)
    ensures
        c.recorded(p).recorded(q) == c.recorded(q).recorded(p),
{
}

/// The sum of the contributions `qs` splits off the element at `i`.
proof fn lemma_sum_remove(qs: Seq<Progress>, i: int)
    requires
        0 <= i < qs.len(),
    ensures
        sum_clamped_done(qs) == sum_clamped_done(qs.remove(i)) + clamped_done(qs[i]),
        sum_total(qs) == sum_total(qs.remove(i)) + qs[i].total,
    decreases qs.len(),
{
    if i == qs.len() - 1 {
        assert(qs.remove(i) =~= qs.drop_last());
    } else {
        assert(qs.remove(i).drop_last() =~= qs.drop_last().remove(i));
        lemma_sum_remove(qs.drop_last(), i);
    }
}

/// The sums over the contributions depend only on which contributions
/// occur, with multiplicity, not on their order.
proof fn lemma_sum_permutation(ps: Seq<Progress>, qs: Seq<Progress>)
    requires
        ps.to_multiset() == qs.to_multiset(),
    ensures
        sum_clamped_done(ps) == sum_clamped_done(qs),
        sum_total(ps) == sum_total(qs),
    decreases ps.len(),
{
    broadcast use vstd::seq_lib::group_to_multiset_ensures;

    if ps.len() == 0 {
        assert(qs.to_multiset().len() == 0);
    } else {
        let p = ps.last();
        assert(ps.contains(p));
        assert(qs.to_multiset().count(p) > 0);
        assert(qs.contains(p));
        let i = choose|i: int| 0 <= i < qs.len() && qs[i] == p;
        lemma_sum_remove(qs, i);
        assert(ps.remove(ps.len() - 1) =~= ps.drop_last());
        assert(ps.drop_last().to_multiset() =~= ps.to_multiset().remove(p));
        assert(qs.remove(i).to_multiset() =~= qs.to_multiset().remove(p));
        lemma_sum_permutation(ps.drop_last(), qs.remove(i));
    }
}

/// Law: order independence — recording the same contributions in any
/// order or interleaving (any two sequences with equal multisets)
/// leaves the counter in the same state.
pub proof fn lemma_record_order_independent(
    c: CounterView,
    ps: Seq<Progress>,
    qs: Seq<Progress>,
)
    requires
        ps.to_multiset() == qs.to_multiset(),
    ensures
        recorded_all(c, ps) == recorded_all(c, qs),
{
    broadcast use vstd::seq_lib::group_to_multiset_ensures;

    lemma_record_sequence(c, ps);
    lemma_record_sequence(c, qs);
    lemma_sum_permutation(ps, qs);
}

/// Law: reset restores the persisted baseline — after `p` is
/// persisted, a cycle reset with zero further recordings leaves the
/// visible counters at the old baseline plus `p`, so persisted
/// progress counts again on the next cycle without being re-reported.
pub proof fn lemma_reset_to_baseline(c: CounterView, p: Progress)
    ensures
        c.persisted_with(p).at_cycle_start().done == c.persisted_done + p.done,
        c.persisted_with(p).at_cycle_start().total == c.persisted_total + p.total,
        c.persisted_with(p).at_cycle_start().done_hidden == c.persisted_hidden_done,
        c.persisted_with(p).at_cycle_start().total_hidden == c.persisted_hidden_total,
{
}

} // verus!
