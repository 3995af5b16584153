//! The order in which a collection is enumerated: by ascending identifier.
//!
//! [`entries`] is the enumeration of a map keyed by [`Id`]. The lemmas say
//! what it holds, and that it is the only sequence that walks the map in
//! ascending order.

use crate::record::Id;
use vstd::prelude::*;

verus! {

/// The entries of `m` whose identifier is below `bound`, by ascending
/// identifier.
pub open spec fn entries_below<V>(m: Map<Id, V>, bound: nat) -> Seq<(Id, V)>
    decreases bound,
{
    if bound == 0 {
        Seq::empty()
    } else {
        let id = (bound - 1) as Id;
        let lower = entries_below(m, (bound - 1) as nat);
        if bound - 1 <= Id::MAX && m.contains_key(id) {
            lower.push((id, m[id]))
        } else {
            lower
        }
    }
}

/// All entries of `m`, by ascending identifier.
pub open spec fn entries<V>(m: Map<Id, V>) -> Seq<(Id, V)> {
    entries_below(m, (Id::MAX + 1) as nat)
}

/// Whether the identifiers in `s` grow strictly from each entry to the next.
pub open spec fn ascending<V>(s: Seq<(Id, V)>) -> bool {
    forall|i: int, j: int| 0 <= i < j < s.len() ==> s[i].0 < s[j].0
}

/// Whether `s` holds entries of `m` only, and each entry of `m` at least
/// once.
pub open spec fn covers<V>(s: Seq<(Id, V)>, m: Map<Id, V>) -> bool {
    &&& forall|i: int|
        0 <= i < s.len() ==> m.contains_key(#[trigger] s[i].0) && m[s[i].0] == s[i].1
    &&& forall|id: Id| #[trigger] m.contains_key(id) ==> s.contains((id, m[id]))
}

/// What `entries_below(m, bound)` holds: the entries of `m` below `bound`,
/// each once, in ascending order.
pub proof fn lemma_entries_below<V>(m: Map<Id, V>, bound: nat)
    ensures
        ascending(entries_below(m, bound)),
        entries_below(m, bound).len() <= bound,
        forall|i: int|
            0 <= i < entries_below(m, bound).len() ==> {
                let e = #[trigger] entries_below(m, bound)[i];
                e.0 < bound && m.contains_key(e.0) && m[e.0] == e.1
            },
        forall|id: Id|
            #[trigger] m.contains_key(id) && id < bound ==> entries_below(m, bound).contains(
                (id, m[id]),
            ),
    decreases bound,
{
    if bound > 0 {
        let lower = entries_below(m, (bound - 1) as nat);
        let all = entries_below(m, bound);
        lemma_entries_below(m, (bound - 1) as nat);
        assert forall|id: Id| #[trigger] m.contains_key(id) && id < bound implies all.contains(
            (id, m[id]),
        ) by {
            if id < bound - 1 {
                let i = choose|i: int| 0 <= i < lower.len() && lower[i] == (id, m[id]);
                assert(all[i] == (id, m[id]));
            } else {
                assert(all[all.len() - 1] == (id, m[id]));
            }
        }
    }
}

/// The enumeration of a map holds its entries and no others, each once, in
/// ascending order of identifier.
pub proof fn lemma_entries<V>(m: Map<Id, V>)
    ensures
        ascending(entries(m)),
        covers(entries(m), m),
{
    lemma_entries_below(m, (Id::MAX + 1) as nat);
}

/// A sequence that walks `m` in ascending order agrees, up to each bound,
/// with the enumeration: its first `n` entries are those below the bound.
proof fn lemma_ascending_prefix<V>(m: Map<Id, V>, s: Seq<(Id, V)>, bound: nat) -> (n: int)
    requires
        ascending(s),
        covers(s, m),
        bound <= Id::MAX + 1,
    ensures
        0 <= n <= s.len(),
        entries_below(m, bound) == s.take(n),
        forall|i: int| 0 <= i < n ==> (#[trigger] s[i]).0 < bound,
        forall|i: int| n <= i < s.len() ==> (#[trigger] s[i]).0 >= bound,
    decreases bound,
{
    if bound == 0 {
        assert(s.take(0) =~= Seq::empty());
        0
    } else {
        let n = lemma_ascending_prefix(m, s, (bound - 1) as nat);
        let id = (bound - 1) as Id;
        if m.contains_key(id) {
            let i = choose|i: int| 0 <= i < s.len() && s[i] == (id, m[id]);
            assert(i >= n) by {
                if i < n {
                    assert(s[i].0 < bound - 1);
                }
            }
            assert(i == n) by {
                if i > n {
                    assert(s[n].0 >= bound - 1);
                    assert(s[n].0 < s[i].0);
                }
            }
            assert(s.take(n + 1) =~= s.take(n).push(s[n]));
            assert forall|j: int| n + 1 <= j < s.len() implies (#[trigger] s[j]).0 >= bound by {
                assert(s[n].0 < s[j].0);
            }
            n + 1
        } else {
            assert forall|j: int| n <= j < s.len() implies (#[trigger] s[j]).0 >= bound by {
                assert(m.contains_key(s[j].0));
            }
            n
        }
    }
}

/// The enumeration is the only way to walk a map in ascending order: a
/// sequence of entries of `m` that misses none and whose identifiers grow
/// strictly is `entries(m)`.
pub proof fn lemma_ascending_is_entries<V>(m: Map<Id, V>, s: Seq<(Id, V)>)
    requires
        ascending(s),
        covers(s, m),
    ensures
        s == entries(m),
{
    let n = lemma_ascending_prefix(m, s, (Id::MAX + 1) as nat);
    assert(n == s.len()) by {
        if n < s.len() {
            assert(s[n].0 >= Id::MAX + 1);
        }
    }
    assert(s.take(n) =~= s);
}

/// The enumeration of a finite map has as many entries as the map.
pub proof fn lemma_entries_len<V>(m: Map<Id, V>)
    requires
        m.dom().finite(),
    ensures
        entries(m).len() == m.len(),
{
    let s = entries(m);
    lemma_entries(m);
    let ids = s.map_values(|e: (Id, V)| e.0);
    assert(ids.no_duplicates()) by {
        assert forall|i: int, j: int| 0 <= i < ids.len() && 0 <= j < ids.len() && i != j implies ids[i]
            != ids[j] by {
            if i < j {
                assert(s[i].0 < s[j].0);
            } else {
                assert(s[j].0 < s[i].0);
            }
        }
    }
    assert(ids.to_set() =~= m.dom()) by {
        assert forall|id: Id| m.dom().contains(id) implies ids.to_set().contains(id) by {
            assert(m.contains_key(id));
            let i = choose|i: int| 0 <= i < s.len() && s[i] == (id, m[id]);
            assert(ids[i] == id);
        }
        assert forall|id: Id| ids.to_set().contains(id) implies m.dom().contains(id) by {
            let i = choose|i: int| 0 <= i < ids.len() && ids[i] == id;
            assert(m.contains_key(s[i].0));
        }
    }
    ids.unique_seq_to_set();
}

/// What a filter keeps: the elements of `s` that meet `pred`, each from its
/// own place, in the order in which they stand in `s`. `at[i]` is the place in
/// `s` of the `i`-th element kept.
pub proof fn lemma_filter_places<A>(s: Seq<A>, pred: spec_fn(A) -> bool) -> (at: Seq<int>)
    ensures
        at.len() == s.filter(pred).len(),
        forall|i: int|
            0 <= i < at.len() ==> 0 <= #[trigger] at[i] < s.len() && s[at[i]] == s.filter(pred)[i]
                && pred(s[at[i]]),
        forall|i: int, j: int| 0 <= i < j < at.len() ==> at[i] < at[j],
        forall|k: int| 0 <= k < s.len() && pred(#[trigger] s[k]) ==> at.contains(k),
    decreases s.len(),
{
    reveal(Seq::filter);
    if s.len() == 0 {
        Seq::empty()
    } else {
        let front = s.drop_last();
        let front_at = lemma_filter_places(front, pred);
        let last = s.len() - 1;
        if pred(s.last()) {
            let at = front_at.push(last);
            assert forall|k: int| 0 <= k < s.len() && pred(#[trigger] s[k]) implies at.contains(
                k,
            ) by {
                if k < last {
                    assert(pred(front[k]));
                    let i = choose|i: int| 0 <= i < front_at.len() && front_at[i] == k;
                    assert(at[i] == k);
                } else {
                    assert(at[front_at.len() as int] == k);
                }
            }
            at
        } else {
            assert forall|k: int| 0 <= k < s.len() && pred(#[trigger] s[k]) implies front_at.contains(
                k,
            ) by {
                assert(pred(front[k]));
            }
            front_at
        }
    }
}

} // verus!
