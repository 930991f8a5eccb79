//! Stable ordering of a short list by a number that goes with each item.

use vstd::prelude::*;

verus! {

/// The list `sorted` with `x` put in behind every item whose rank is not
/// above the rank of `x`.
pub open spec fn placed<T>(sorted: Seq<(int, T)>, x: (int, T)) -> Seq<(int, T)>
    decreases sorted.len(),
{
    if sorted.len() == 0 {
        seq![x]
    } else if sorted.last().0 <= x.0 {
        sorted.push(x)
    } else {
        placed(sorted.drop_last(), x).push(sorted.last())
    }
}

/// The items of `items` by rising rank; items of one rank stay in the order
/// in which they came.
pub open spec fn ranked<T>(items: Seq<(int, T)>) -> Seq<(int, T)>
    decreases items.len(),
{
    if items.len() == 0 {
        Seq::empty()
    } else {
        placed(ranked(items.drop_last()), items.last())
    }
}

/// True when the ranks never fall along the list.
pub open spec fn rising<T>(items: Seq<(int, T)>) -> bool {
    forall|i: int, j: int| 0 <= i < j < items.len() ==> items[i].0 <= items[j].0
}

/// The place at which `placed` puts an item of rank `rank`.
pub open spec fn place_for<T>(sorted: Seq<(int, T)>, rank: int) -> int
    decreases sorted.len(),
{
    if sorted.len() == 0 {
        0
    } else if sorted.last().0 <= rank {
        sorted.len() as int
    } else {
        place_for(sorted.drop_last(), rank)
    }
}

/// Putting an item in is inserting it at its place.
pub proof fn lemma_placed_is_insert<T>(sorted: Seq<(int, T)>, x: (int, T))
    ensures
        0 <= place_for(sorted, x.0) <= sorted.len(),
        placed(sorted, x) == sorted.insert(place_for(sorted, x.0), x),
    decreases sorted.len(),
{
    if sorted.len() == 0 {
        assert(seq![x] =~= sorted.insert(0, x));
    } else if sorted.last().0 <= x.0 {
        assert(sorted.push(x) =~= sorted.insert(sorted.len() as int, x));
    } else {
        lemma_placed_is_insert(sorted.drop_last(), x);
        let p = place_for(sorted.drop_last(), x.0);
        assert(sorted.drop_last().insert(p, x).push(sorted.last()) =~= sorted.insert(p, x));
    }
}

/// Putting an item into a rising list leaves it rising, and one longer.
pub proof fn lemma_placed_rising<T>(sorted: Seq<(int, T)>, x: (int, T))
    requires
        rising(sorted),
    ensures
        rising(placed(sorted, x)),
        placed(sorted, x).len() == sorted.len() + 1,
        forall|i: int| 0 <= i < place_for(sorted, x.0) ==> sorted[i].0 <= x.0,
        forall|i: int| place_for(sorted, x.0) <= i < sorted.len() ==> sorted[i].0 > x.0,
    decreases sorted.len(),
{
    lemma_placed_is_insert(sorted, x);
    if sorted.len() == 0 {
    } else if sorted.last().0 <= x.0 {
    } else {
        let shorter = sorted.drop_last();
        assert(rising(shorter)) by {
            assert forall|i: int, j: int| 0 <= i < j < shorter.len() implies shorter[i].0
                <= shorter[j].0 by {
                assert(shorter[i] == sorted[i] && shorter[j] == sorted[j]);
            }
        }
        lemma_placed_rising(shorter, x);
        let p = place_for(shorter, x.0);
        assert forall|i: int| 0 <= i < p implies sorted[i].0 <= x.0 by {
            assert(shorter[i] == sorted[i]);
        }
        assert forall|i: int| p <= i < sorted.len() implies sorted[i].0 > x.0 by {
            if i < shorter.len() {
                assert(shorter[i] == sorted[i]);
            }
        }
    }
    let out = placed(sorted, x);
    let p = place_for(sorted, x.0);
    assert forall|i: int, j: int| 0 <= i < j < out.len() implies out[i].0 <= out[j].0 by {
        if i < p && j < p {
            assert(out[i] == sorted[i] && out[j] == sorted[j]);
        } else if i < p && j == p {
            assert(out[i] == sorted[i]);
        } else if i < p && j > p {
            assert(out[i] == sorted[i] && out[j] == sorted[j - 1]);
        } else if i == p {
            assert(out[j] == sorted[j - 1]);
        } else {
            assert(out[i] == sorted[i - 1] && out[j] == sorted[j - 1]);
        }
    }
}

/// A ranked list is rising and as long as the list it was made from.
pub proof fn lemma_ranked<T>(items: Seq<(int, T)>)
    ensures
        rising(ranked(items)),
        ranked(items).len() == items.len(),
    decreases items.len(),
{
    if items.len() > 0 {
        lemma_ranked(items.drop_last());
        lemma_placed_rising(ranked(items.drop_last()), items.last());
    }
}

/// The list with each item replaced by what `f` makes of it, ranks kept.
pub open spec fn relabel<A, B>(items: Seq<(int, A)>, f: spec_fn(A) -> B) -> Seq<(int, B)> {
    Seq::new(items.len(), |i: int| (items[i].0, f(items[i].1)))
}

/// Where an item is put depends on the ranks alone.
pub proof fn lemma_placed_relabel<A, B>(sorted: Seq<(int, A)>, x: (int, A), f: spec_fn(A) -> B)
    ensures
        relabel(placed(sorted, x), f) == placed(relabel(sorted, f), (x.0, f(x.1))),
    decreases sorted.len(),
{
    let mapped = relabel(sorted, f);
    if sorted.len() == 0 {
        assert(relabel(placed(sorted, x), f) =~= seq![(x.0, f(x.1))]);
    } else if sorted.last().0 <= x.0 {
        assert(mapped.last().0 == sorted.last().0);
        assert(relabel(sorted.push(x), f) =~= mapped.push((x.0, f(x.1))));
    } else {
        assert(mapped.last().0 == sorted.last().0);
        lemma_placed_relabel(sorted.drop_last(), x, f);
        assert(relabel(sorted.drop_last(), f) =~= mapped.drop_last());
        assert(relabel(placed(sorted.drop_last(), x).push(sorted.last()), f) =~= relabel(
            placed(sorted.drop_last(), x),
            f,
        ).push(mapped.last()));
    }
}

/// The items of a ranked list, without their ranks.
pub open spec fn items_of<T>(items: Seq<(int, T)>) -> Seq<T> {
    Seq::new(items.len(), |i: int| items[i].1)
}

/// The ranks and the items of a list, side by side.
pub open spec fn paired<T>(ranks: Seq<i128>, items: Seq<T>) -> Seq<(int, T)> {
    Seq::new(items.len(), |i: int| (ranks[i] as int, items[i]))
}

/// Puts `item` of rank `rank` into the rising list behind every item whose
/// rank is not above its own.
pub fn place<T>(ranks: &mut Vec<i128>, items: &mut Vec<T>, rank: i128, item: T)
    requires
        old(ranks)@.len() == old(items)@.len(),
        rising(paired(old(ranks)@, old(items)@)),
    ensures
        final(ranks)@.len() == final(items)@.len(),
        paired(final(ranks)@, final(items)@) == placed(
            paired(old(ranks)@, old(items)@),
            (rank as int, item),
        ),
        rising(paired(final(ranks)@, final(items)@)),
{
    let ghost before = paired(ranks@, items@);
    let mut at: usize = ranks.len();
    assert(before.take(at as int) =~= before);
    while at > 0 && ranks[at - 1] > rank
        invariant
            ranks@ == old(ranks)@,
            items@ == old(items)@,
            ranks@.len() == items@.len(),
            0 <= at <= ranks@.len(),
            before == paired(ranks@, items@),
            place_for(before, rank as int) == place_for(before.take(at as int), rank as int),
        decreases at,
    {
        proof {
            let head = before.take(at as int);
            assert(head.last() == before[at - 1]);
            assert(head.drop_last() =~= before.take(at - 1));
        }
        at = at - 1;
    }
    proof {
        let head = before.take(at as int);
        if at > 0 {
            assert(head.last() == before[at - 1]);
        }
        assert(place_for(head, rank as int) == at);
        lemma_placed_is_insert(before, (rank as int, item));
        lemma_placed_rising(before, (rank as int, item));
    }
    ranks.insert(at, rank);
    items.insert(at, item);
    assert(paired(ranks@, items@) =~= before.insert(at as int, (rank as int, item)));
}

} // verus!
