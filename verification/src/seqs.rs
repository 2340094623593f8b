//! Small sequence utilities shared by the store's invariants and laws:
//! filtering facts, duplicate-freedom, and sums of amounts.

use crate::types::Amount;
use vstd::prelude::*;

verus! {

/// No element occurs twice.
pub open spec fn no_dups<A>(s: Seq<A>) -> bool {
    forall|i: int, j: int| 0 <= i < j < s.len() ==> s[i] != s[j]
}

/// The sum of a sequence of amounts, as an unbounded integer.
pub open spec fn sum_amounts(s: Seq<Amount>) -> int
    decreases s.len(),
{
    if s.len() == 0 {
        0
    } else {
        sum_amounts(s.drop_last()) + s.last()
    }
}

/// Filtering distributes over push.
pub proof fn lemma_filter_push<A>(s: Seq<A>, pred: spec_fn(A) -> bool, e: A)
    ensures
        s.push(e).filter(pred) == if pred(e) {
            s.filter(pred).push(e)
        } else {
            s.filter(pred)
        },
{
    reveal(Seq::filter);
    assert(s.push(e).drop_last() =~= s);
}

/// Every element of a filtered sequence satisfies the predicate and stands
/// in the sequence it was filtered from.
pub proof fn lemma_filter_elems<A>(s: Seq<A>, pred: spec_fn(A) -> bool)
    ensures
        forall|i: int|
            0 <= i < s.filter(pred).len() ==> pred(#[trigger] s.filter(pred)[i]) && s.contains(
                s.filter(pred)[i],
            ),
    decreases s.len(),
{
    reveal(Seq::filter);
    if s.len() > 0 {
        lemma_filter_elems(s.drop_last(), pred);
        assert forall|i: int| 0 <= i < s.filter(pred).len() implies pred(
            #[trigger] s.filter(pred)[i],
        ) && s.contains(s.filter(pred)[i]) by {
            let f = s.filter(pred);
            let fd = s.drop_last().filter(pred);
            if i < fd.len() {
                assert(fd[i] == f[i]);
                assert(s.drop_last().contains(fd[i]));
                let j = choose|j: int| 0 <= j < s.drop_last().len() && s.drop_last()[j] == fd[i];
                assert(s[j] == fd[i]);
            } else {
                assert(f[i] == s.last());
                assert(s[s.len() - 1] == s.last());
            }
        }
    }
}

/// Pushing onto a sequence of amounts adds the new amount to the sum.
pub proof fn lemma_sum_push(s: Seq<Amount>, e: Amount)
    ensures
        sum_amounts(s.push(e)) == sum_amounts(s) + e,
{
    assert(s.push(e).drop_last() =~= s);
}

/// Mapping a map's values commutes with inserting one entry.
pub proof fn lemma_map_values_insert<K, V, W>(m: Map<K, V>, k: K, v: V, f: spec_fn(V) -> W)
    ensures
        m.insert(k, v).map_values(f) == m.map_values(f).insert(k, f(v)),
{
    assert(m.insert(k, v).map_values(f) =~= m.map_values(f).insert(k, f(v)));
}

/// Mapping a map's values commutes with removing one key.
pub proof fn lemma_map_values_remove<K, V, W>(m: Map<K, V>, k: K, f: spec_fn(V) -> W)
    ensures
        m.remove(k).map_values(f) == m.map_values(f).remove(k),
{
    assert(m.remove(k).map_values(f) =~= m.map_values(f).remove(k));
}

/// The sequence with every occurrence of one element removed, order kept.
pub open spec fn seq_without<I>(s: Seq<I>, item: I) -> Seq<I>
    decreases s.len(),
{
    if s.len() == 0 {
        s
    } else {
        let rest = seq_without(s.drop_last(), item);
        if s.last() == item {
            rest
        } else {
            rest.push(s.last())
        }
    }
}

pub proof fn lemma_seq_without<I>(s: Seq<I>, item: I)
    ensures
        !seq_without(s, item).contains(item),
        forall|y: I| y != item ==> seq_without(s, item).contains(y) == s.contains(y),
        no_dups(s) ==> no_dups(seq_without(s, item)),
        !s.contains(item) ==> seq_without(s, item) == s,
        forall|j: int|
            0 <= j < seq_without(s, item).len() ==> s.contains(#[trigger] seq_without(s, item)[j]),
    decreases s.len(),
{
    let r = seq_without(s, item);
    if s.len() == 0 {
        assert(r =~= s);
        assert forall|y: I| y != item implies r.contains(y) == s.contains(y) by {}
    } else {
        let d = s.drop_last();
        let rest = seq_without(d, item);
        lemma_seq_without(d, item);
        assert forall|y: I| y != item implies r.contains(y) == s.contains(y) by {
            if s.last() == item {
                assert(r == rest);
                if s.contains(y) {
                    let i = choose|i: int| 0 <= i < s.len() && s[i] == y;
                    assert(s[s.len() - 1] == s.last());
                    assert(i < s.len() - 1);
                    assert(d[i] == y);
                    assert(d.contains(y));
                    assert(rest.contains(y) == d.contains(y));
                    assert(r.contains(y));
                }
                if rest.contains(y) {
                    let i = choose|i: int| 0 <= i < rest.len() && rest[i] == y;
                    assert(d.contains(y));
                    let j = choose|j: int| 0 <= j < d.len() && d[j] == y;
                    assert(s[j] == y);
                }
            } else {
                if s.contains(y) {
                    let i = choose|i: int| 0 <= i < s.len() && s[i] == y;
                    if i < s.len() - 1 {
                        assert(d[i] == y);
                        assert(d.contains(y));
                        assert(rest.contains(y));
                        let j = choose|j: int| 0 <= j < rest.len() && rest[j] == y;
                        assert(r[j] == rest[j]);
                        assert(r[j] == y);
                    } else {
                        assert(s[i] == s.last());
                        assert(r.last() == y);
                    }
                }
                if r.contains(y) {
                    let i = choose|i: int| 0 <= i < r.len() && r[i] == y;
                    if i < r.len() - 1 {
                        assert(rest[i] == y);
                        assert(d.contains(y));
                        let j = choose|j: int| 0 <= j < d.len() && d[j] == y;
                        assert(s[j] == y);
                    } else {
                        assert(s.last() == y);
                    }
                }
            }
        }
        if no_dups(s) {
            assert(no_dups(d));
            if s.last() != item {
                assert forall|i: int, j: int| 0 <= i < j < r.len() implies r[i] != r[j] by {
                    if j < r.len() - 1 {
                        assert(r[i] == rest[i] && r[j] == rest[j]);
                    } else {
                        assert(r[j] == s.last());
                        assert(rest.contains(r[i]) ==> d.contains(r[i]));
                        assert(rest[i] == r[i]);
                        assert(d.contains(r[i]) ==> exists|m: int| 0 <= m < d.len() && d[m] == r[i]);
                        if r[i] == s.last() {
                            assert(d.contains(r[i]));
                            let m = choose|m: int| 0 <= m < d.len() && d[m] == r[i];
                            assert(s[m] == s.last());
                            assert(s[m] == s[s.len() - 1]);
                            assert(false);
                        }
                    }
                }
            }
        }
        if !s.contains(item) {
            assert(forall|i: int| 0 <= i < d.len() ==> d[i] == s[i]);
            assert(!d.contains(item)) by {
                if d.contains(item) {
                    let i = choose|i: int| 0 <= i < d.len() && d[i] == item;
                    assert(s[i] == item);
                }
            }
            assert(s.last() != item) by {
                assert(s[s.len() - 1] == s.last());
            }
            assert(r =~= s);
        }
        assert forall|j: int| 0 <= j < r.len() implies s.contains(#[trigger] r[j]) by {
            if s.last() == item {
                assert(d.contains(r[j]));
                let m = choose|m: int| 0 <= m < d.len() && d[m] == r[j];
                assert(s[m] == r[j]);
            } else {
                if j < r.len() - 1 {
                    assert(rest[j] == r[j]);
                    assert(d.contains(r[j]));
                    let m = choose|m: int| 0 <= m < d.len() && d[m] == r[j];
                    assert(s[m] == r[j]);
                } else {
                    assert(r[j] == s.last());
                    assert(s[s.len() - 1] == s.last());
                }
            }
        }
    }
}

} // verus!
