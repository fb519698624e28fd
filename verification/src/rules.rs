//! The policy of a node.
use crate::keyval::CachePolicy;
use crate::query::{Nanos, QueryMode, QueryPriority};
use vstd::prelude::*;

verus! {

/// What a node decides for itself. As in `keyval`, the methods promise nothing.
pub trait DHTRules: Sized {
    /// Is a value kept, and how long? `is_local` tells whether this node asked for it.
    fn do_store(&self, is_local: bool, prio: QueryPriority) -> (bool, Option<CachePolicy>);

    /// Is a search that finds nothing reported?
    fn notfoundreply(&self, mode: &QueryMode) -> bool;

    /// How many missed searches end a query that went to `nb_forw` nodes with `rem_hop` hops left?
    fn notfoundtreshold(&self, nb_forw: u8, rem_hop: u8, mode: &QueryMode) -> usize;

    /// How long does a query wait for answers?
    fn lifetime(&self, prio: QueryPriority) -> Nanos;
}

/// `a` is an answer that `rules` may give about keeping a value.
pub open spec fn rules_keep<DR: DHTRules>(
    rules: DR,
    is_local: bool,
    prio: QueryPriority,
    a: (bool, Option<CachePolicy>),
) -> bool {
    call_ensures(DR::do_store, (&rules, is_local, prio), a)
}

/// `b` is an answer that `rules` may give about reporting a missed search.
pub open spec fn rules_report<DR: DHTRules>(rules: DR, mode: QueryMode, b: bool) -> bool {
    call_ensures(DR::notfoundreply, (&rules, &mode), b)
}

/// `n` is a number of missed searches that `rules` may ask for.
pub open spec fn rules_threshold<DR: DHTRules>(
    rules: DR,
    nb_forw: u8,
    rem_hop: u8,
    mode: QueryMode,
    n: usize,
) -> bool {
    call_ensures(DR::notfoundtreshold, (&rules, nb_forw, rem_hop, &mode), n)
}

/// `t` is a lifetime that `rules` may give to a query.
pub open spec fn rules_lifetime<DR: DHTRules>(rules: DR, prio: QueryPriority, t: Nanos) -> bool {
    call_ensures(DR::lifetime, (&rules, prio), t)
}

} // verus!
