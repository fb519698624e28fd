//! Queries: the message that carries one from node to node, and the record that a node keeps of
//! one while it waits for answers.
use crate::keyval::{Peer, Ref};
use crate::rules::DHTRules;
use std::collections::VecDeque;
use vstd::prelude::*;

verus! {

/// Identifies a query on the node that handed the number out.
pub type QueryID = usize;

pub type QueryPriority = u8;

/// A point in time, or a span, in nanoseconds.
pub type Nanos = u128;

/// Identifies a request that came in through the node's own api.
#[derive(Clone, Copy, Debug, PartialEq, Eq, Structural)]
pub struct ApiQueryId(pub usize);

/// How answers travel back.
#[derive(Clone, Copy, Debug, PartialEq, Eq, Structural)]
pub enum QueryMode {
    /// To the preceding node, which keeps a trace of the query.
    AProxy,
    /// Directly to the node that asked.
    Asynch,
    /// One of the two for the given number of hops, then the other.
    AMix(u8),
}

/// What the nodes on the way should do with the answer, by number.
#[derive(Clone, Copy, Debug, PartialEq, Eq, Structural)]
pub struct StoragePriority(pub u8);

/// The last nodes that a query went through.
#[derive(Debug)]
pub enum LastSent<P: Peer> {
    LastSentHop(usize, VecDeque<P::Key>),
    LastSentPeer(usize, VecDeque<P::Key>),
}

/// A query on its way; `M` says how the answer travels back.
#[derive(Debug)]
pub struct QueryMsg<P: Peer, M> {
    /// Identifies the query and its mode.
    pub mode_info: M,
    /// History of the preceding hops, for routing.
    pub hop_hist: Option<LastSent<P>>,
    pub storage: StoragePriority,
    /// Hops that remain.
    pub rem_hop: u8,
    /// Number of nodes that the query is forwarded to.
    pub nb_forw: u8,
    pub prio: QueryPriority,
    /// Number of results expected.
    pub nb_res: usize,
}

/// A value that travels without having been asked for: the hops that remain, and the number of
/// nodes it is forwarded to.
#[derive(Clone, Copy, Debug, PartialEq, Eq, Structural)]
pub struct PropagateMsg(pub usize, pub usize);

/// Where an answer goes: to connected peers, to addresses, and under which id the receiver knows
/// the query.
pub struct Dests<P: Peer, RP> {
    pub peers: Option<Vec<RP>>,
    pub addrs: Option<Vec<(P::Key, P::Address)>>,
    pub query: QueryID,
}

/// What a query's mode decides.
///
/// For a network's own routing to implement; as in `keyval`, the methods promise nothing.
pub trait ModeInfo<P: Peer, RP: Ref<P>, DR: DHTRules>: Clone {
    fn get_mode(&self) -> QueryMode;

    /// Does a node that forwards the query give it an id of its own?
    fn do_store(&self) -> bool;

    fn get_query_id(&self) -> QueryID;

    /// Where the answer goes, for a query that came from `owith`.
    fn fwd_dests(self, owith: &Option<RP>) -> Dests<P, RP>;

    /// The message as `me` sends it on under the id `qid`, and the mode it came in with.
    fn to_next_hop(
        msg: QueryMsg<P, Self>,
        me: &P,
        qid: QueryID,
        rules: &DR,
    ) -> NextHop<P, Self>;
}

/// What `ModeInfo::to_next_hop` gives.
pub struct NextHop<P: Peer, M> {
    pub msg: QueryMsg<P, M>,
    pub old_mode_info: M,
}

/// `m` is a mode that `info` may report.
pub open spec fn has_mode<P: Peer, RP: Ref<P>, DR: DHTRules, M: ModeInfo<P, RP, DR>>(
    info: M,
    m: QueryMode,
) -> bool {
    call_ensures(M::get_mode, (&info,), m)
}

/// `b` is what `info` may say about giving a forwarded query a new id.
pub open spec fn renumbers<P: Peer, RP: Ref<P>, DR: DHTRules, M: ModeInfo<P, RP, DR>>(
    info: M,
    b: bool,
) -> bool {
    call_ensures(M::do_store, (&info,), b)
}

/// `id` is an id that `info` may report.
pub open spec fn has_query_id<P: Peer, RP: Ref<P>, DR: DHTRules, M: ModeInfo<P, RP, DR>>(
    info: M,
    id: QueryID,
) -> bool {
    call_ensures(M::get_query_id, (&info,), id)
}

/// `d` is where `info` may send the answer to a query that came from `owith`.
pub open spec fn leads_to<P: Peer, RP: Ref<P>, DR: DHTRules, M: ModeInfo<P, RP, DR>>(
    info: M,
    owith: Option<RP>,
    d: Dests<P, RP>,
) -> bool {
    call_ensures(M::fwd_dests, (info, &owith), d)
}

/// `h` is what `to_next_hop` may make of `msg` on the node `me`.
pub open spec fn hops<P: Peer, RP: Ref<P>, DR: DHTRules, M: ModeInfo<P, RP, DR>>(
    msg: QueryMsg<P, M>,
    me: P,
    qid: QueryID,
    rules: DR,
    h: NextHop<P, M>,
) -> bool {
    call_ensures(M::to_next_hop, (msg, &me, qid, &rules), h)
}

impl<P: Peer> Clone for LastSent<P> {
    fn clone(&self) -> (r: Self)
        ensures
            match (*self, r) {
                (LastSent::LastSentHop(n, ks), LastSent::LastSentHop(m, ls)) => n == m
                    && cloned(ks, ls),
                (LastSent::LastSentPeer(n, ks), LastSent::LastSentPeer(m, ls)) => n == m
                    && cloned(ks, ls),
                _ => false,
            },
    {
        match self {
            LastSent::LastSentHop(n, ks) => LastSent::LastSentHop(*n, ks.clone()),
            LastSent::LastSentPeer(n, ks) => LastSent::LastSentPeer(*n, ks.clone()),
        }
    }
}

impl<P: Peer, M: Clone> Clone for QueryMsg<P, M> {
    fn clone(&self) -> (r: Self)
        ensures
            cloned(self.mode_info, r.mode_info),
            cloned(self.hop_hist, r.hop_hist),
            r.storage == self.storage,
            r.rem_hop == self.rem_hop,
            r.nb_forw == self.nb_forw,
            r.prio == self.prio,
            r.nb_res == self.nb_res,
    {
        QueryMsg {
            mode_info: self.mode_info.clone(),
            hop_hist: self.hop_hist.clone(),
            storage: self.storage,
            rem_hop: self.rem_hop,
            nb_forw: self.nb_forw,
            prio: self.prio,
            nb_res: self.nb_res,
        }
    }
}

/// Who waits for the answers to a query, and what came in so far.
pub enum QReply<M, VR, RP> {
    /// A request of this node's api: its id, the number of results expected, the results, the
    /// number of missed searches still to be reported, and the priority.
    Local(ApiQueryId, usize, Vec<VR>, usize, QueryPriority),
    /// Another node: the mode the query came in with, the peer it came from, the number of
    /// results expected, the results, and the number of missed searches still to be reported.
    Dist(M, Option<RP>, usize, Vec<VR>, usize),
}

/// A query that waits for answers: its id, who waits, and when it may be forgotten.
pub struct Query<M, VR, RP>(pub QueryID, pub QReply<M, VR, RP>, pub Option<Nanos>);

/// Who waits for the answers to a query.
pub ghost enum Asker<M, RP> {
    Api(ApiQueryId, QueryPriority),
    Node(M, Option<RP>),
}

/// A pending query, with its results as a sequence.
pub ghost struct Pending<M, VR, RP> {
    pub id: QueryID,
    pub asker: Asker<M, RP>,
    pub nb_res: usize,
    pub results: Seq<VR>,
    pub nb_not_found: usize,
    pub expire: Option<Nanos>,
}

impl<M, VR, RP> View for Query<M, VR, RP> {
    type V = Pending<M, VR, RP>;

    open spec fn view(&self) -> Pending<M, VR, RP> {
        match self.1 {
            QReply::Local(api, nb_res, vres, nb_not_found, prio) => Pending {
                id: self.0,
                asker: Asker::Api(api, prio),
                nb_res,
                results: vres@,
                nb_not_found,
                expire: self.2,
            },
            QReply::Dist(mode, owith, nb_res, vres, nb_not_found) => Pending {
                id: self.0,
                asker: Asker::Node(mode, owith),
                nb_res,
                results: vres@,
                nb_not_found,
                expire: self.2,
            },
        }
    }
}

impl<M, VR, RP> Pending<M, VR, RP> {
    /// The query with `vs` after the results it had.
    pub open spec fn gain(self, vs: Seq<VR>) -> Self {
        Pending { results: self.results + vs, ..self }
    }

    /// As many results as expected are there.
    pub open spec fn full(self) -> bool {
        self.nb_res == self.results.len()
    }

    /// The query after one more missed search was reported.
    pub open spec fn miss(self) -> Self {
        if self.nb_not_found > 0 {
            Pending { nb_not_found: (self.nb_not_found - 1) as usize, ..self }
        } else {
            self
        }
    }

    /// The next missed search is the last one that the query waits for.
    pub open spec fn last_miss(self) -> bool {
        self.nb_not_found == 1
    }
}

impl<M, VR, RP> Query<M, VR, RP> {
    /// Adds results; tells whether the query has as many as it expects.
    pub fn gain(&mut self, vs: Vec<VR>) -> (full: bool)
        ensures
            final(self)@ == old(self)@.gain(vs@),
            full == final(self)@.full(),
    {
        let mut vs = vs;
        match &mut self.1 {
            QReply::Local(_, nb_res, vres, _, _) => {
                vres.append(&mut vs);
                *nb_res == vres.len()
            },
            QReply::Dist(_, _, nb_res, vres, _) => {
                vres.append(&mut vs);
                *nb_res == vres.len()
            },
        }
    }

    /// Counts a missed search; tells whether it was the last one that the query waits for.
    ///
    /// A query that waits for none stays as it is.
    pub fn miss(&mut self) -> (last: bool)
        ensures
            final(self)@ == old(self)@.miss(),
            last == old(self)@.last_miss(),
    {
        let nb_not_found = match &mut self.1 {
            QReply::Local(_, _, _, n, _) => n,
            QReply::Dist(_, _, _, _, n) => n,
        };
        if *nb_not_found > 0 {
            *nb_not_found -= 1;
            *nb_not_found == 0
        } else {
            false
        }
    }
}

/// The queries of a node that wait for answers, by id.
pub trait QueryCache<M, VR, RP>: Sized {
    spec fn queries(&self) -> Map<QueryID, Pending<M, VR, RP>>;

    /// The ids that `new_id` may give next. Only `new_id` changes them; nothing else is promised
    /// of them.
    spec fn new_ids(&self) -> Set<QueryID>;

    /// `ids` are what may come next, once `new_id` was called on `before` and gave `id`.
    ///
    /// All are, unless the implementation narrows it down.
    open spec fn drew(before: Self, id: QueryID, ids: Set<QueryID>) -> bool {
        true
    }

    fn query_add(&mut self, qid: QueryID, query: Query<M, VR, RP>)
        ensures
            final(self).queries() == old(self).queries().insert(qid, query@),
            final(self).new_ids() == old(self).new_ids(),
    ;

    fn query_get_mut(&mut self, qid: &QueryID) -> (r: Option<&mut Query<M, VR, RP>>)
        ensures
            match r {
                Some(q) => old(self).queries().contains_key(*qid) && q@ == old(
                    self,
                ).queries()[*qid] && final(self).queries() == old(self).queries().insert(
                    *qid,
                    final(q)@,
                ),
                None => !old(self).queries().contains_key(*qid) && final(self).queries() == old(
                    self,
                ).queries(),
            },
            final(self).new_ids() == old(self).new_ids(),
    ;

    fn query_remove(&mut self, qid: &QueryID) -> (r: Option<Query<M, VR, RP>>)
        ensures
            final(self).queries() == old(self).queries().remove(*qid),
            match r {
                Some(q) => old(self).queries().contains_key(*qid) && q@ == old(
                    self,
                ).queries()[*qid],
                None => !old(self).queries().contains_key(*qid),
            },
            final(self).new_ids() == old(self).new_ids(),
    ;

    /// An id for a new query.
    fn new_id(&mut self) -> (id: QueryID)
        ensures
            old(self).new_ids().contains(id),
            Self::drew(*old(self), id, final(self).new_ids()),
            final(self).queries() == old(self).queries(),
    ;
}

} // verus!
