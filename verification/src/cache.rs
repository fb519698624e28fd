//! Pending queries in memory.
use crate::query::{Pending, Query, QueryCache, QueryID};
use std::collections::hash_map::Entry;
use std::collections::HashMap;
use vstd::prelude::*;

verus! {

/// The pending queries in a hash map, with ids handed out one after the other.
pub struct QueryTable<M, VR, RP> {
    map: HashMap<QueryID, Query<M, VR, RP>>,
    next: QueryID,
}

impl<M, VR, RP> QueryTable<M, VR, RP> {
    /// The id that comes next.
    pub closed spec fn next_id(&self) -> QueryID {
        self.next
    }

    /// No query, and `first` as the first id.
    pub fn new(first: QueryID) -> (t: Self)
        ensures
            t.queries() == Map::<QueryID, Pending<M, VR, RP>>::empty(),
            t.next_id() == first,
    {
        broadcast use vstd::std_specs::hash::group_hash_axioms;

        let t = QueryTable { map: HashMap::new(), next: first };
        assert(t.queries() =~= Map::<QueryID, Pending<M, VR, RP>>::empty());
        t
    }
}

impl<M, VR, RP> QueryCache<M, VR, RP> for QueryTable<M, VR, RP> {
    closed spec fn queries(&self) -> Map<QueryID, Pending<M, VR, RP>> {
        self.map@.map_values(|q: Query<M, VR, RP>| q@)
    }

    open spec fn new_ids(&self) -> Set<QueryID> {
        set![self.next_id()]
    }

    /// The id after `id`, or the first one after the last.
    open spec fn drew(before: Self, id: QueryID, ids: Set<QueryID>) -> bool {
        ids == set![
            if id == usize::MAX {
                0
            } else {
                (id + 1) as usize
            },
        ]
    }

    fn query_add(&mut self, qid: QueryID, query: Query<M, VR, RP>)
        ensures
            final(self).next_id() == old(self).next_id(),
    {
        broadcast use vstd::std_specs::hash::group_hash_axioms;

        self.map.insert(qid, query);
        assert(self.queries() =~= old(self).queries().insert(qid, query@));
    }

    fn query_get_mut(&mut self, qid: &QueryID) -> (r: Option<&mut Query<M, VR, RP>>)
        ensures
            final(self).next_id() == old(self).next_id(),
    {
        broadcast use vstd::std_specs::hash::group_hash_axioms;

        match self.map.entry(*qid) {
            Entry::Occupied(e) => Some(e.into_mut()),
            Entry::Vacant(_) => None,
        }
    }

    fn query_remove(&mut self, qid: &QueryID) -> (r: Option<Query<M, VR, RP>>)
        ensures
            final(self).next_id() == old(self).next_id(),
    {
        broadcast use vstd::std_specs::hash::group_hash_axioms;

        let r = self.map.remove(qid);
        assert(self.queries() =~= old(self).queries().remove(*qid));
        r
    }

    fn new_id(&mut self) -> (id: QueryID)
        ensures
            final(self).next_id() == if id == usize::MAX {
                0
            } else {
                (id + 1) as usize
            },
    {
        let id: usize = self.next;
        self.next = id.wrapping_add(1);
        id
    }
}

/// A new table holds nothing. Ids come one after the other from the first one on, and start over
/// after the last; drawing one changes nothing that is held.
pub proof fn law_ids_come_in_order<M, VR, RP>(
    first: QueryID,
    new: QueryTable<M, VR, RP>,
    t: &mut QueryTable<M, VR, RP>,
    id: QueryID,
)
    requires
        call_ensures(QueryTable::<M, VR, RP>::new, (first,), new),
        call_ensures(<QueryTable<M, VR, RP> as QueryCache<M, VR, RP>>::new_id, (t,), id),
    ensures
        new.next_id() == first,
        forall|q: QueryID| !(#[trigger] new.queries().contains_key(q)),
        id == old(t).next_id(),
        final(t).next_id() == id + 1 || (id == usize::MAX && final(t).next_id() == 0),
        final(t).next_id() != id,
        final(t).queries() == old(t).queries(),
        forall|q: QueryID| #[trigger] final(t).new_ids().contains(q) <==> q == final(t).next_id(),
{
}

} // verus!
