//! What a walk over a `BTreeMap` keyed by [`Id`] hands out, in the terms of
//! [`entries`].

use crate::listing::{entries, lemma_ascending_is_entries};
use crate::record::{record_views, Id};
use vstd::prelude::*;
use vstd::std_specs::btree::increasing_seq;
use vstd::std_specs::cmp::OrdSpec;

verus! {

/// The entries that a walk hands out, each record by its view.
pub open spec fn walked<T: View>(walk: Seq<(&Id, &T)>) -> Seq<(Id, T::V)> {
    Seq::new(walk.len(), |i: int| (*walk[i].0, (*walk[i].1)@))
}

/// A walk that hands out the entries of `m`, none missing, with growing
/// identifiers, hands out the enumeration of `m`.
pub proof fn lemma_walk_is_entries<T: View>(m: Map<Id, T>, walk: Seq<(&Id, &T)>)
    requires
        increasing_seq(walk.map_values(|kv: (&Id, &T)| *kv.0)),
        forall|i: int|
            0 <= i < walk.len() ==> m.contains_key(*walk[i].0) && m[*walk[i].0] == *walk[i].1,
        forall|id: Id| m.contains_key(id) ==> walk.contains((&id, &m[id])),
    ensures
        walked(walk) == entries(record_views(m)),
{
    let s = walked(walk);
    let views = record_views(m);
    let ids = walk.map_values(|kv: (&Id, &T)| *kv.0);
    assert forall|i: int, j: int| 0 <= i < j < s.len() implies s[i].0 < s[j].0 by {
        assert(ids[i].cmp_spec(&ids[j]) is Less);
    }
    assert forall|id: Id| #[trigger] views.contains_key(id) implies s.contains((id, views[id])) by {
        assert(m.contains_key(id));
        assert(walk.contains((&id, &m[id])));
        let i = choose|i: int| 0 <= i < walk.len() && walk[i] == (&id, &m[id]);
        assert(s[i] == (id, views[id]));
    }
    lemma_ascending_is_entries(views, s);
}

} // verus!
