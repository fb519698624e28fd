//! What holds of the service as a whole.
use crate::answer::{gives_one, StoreReply};
use crate::clock::LONGEST_SPAN;
use crate::command::{command_ref_of, command_sendable_of, KVStoreCommand, KVStoreCommandSend};
use crate::error::Error;
use crate::global::{marked_as_peer, GlobalCommand, GlobalReply, PeerStoreReply};
use crate::keyval::{
    answers, made_from, ref_of, sendable_of, CachePolicy, KVStore, KeyVal, OpenStore, Peer, Ref,
    SRef,
};
use crate::proto::{crosses, refs_in, says, KVStoreProtoMsg};
use crate::query::{
    renumbers, ApiQueryId, Asker, ModeInfo, Nanos, Pending, QueryCache, QueryID, QueryMsg,
    QueryPriority,
};
use crate::reply::{reply_ref_of, reply_sendable_of, KVStoreReply, KVStoreReplySend};
use crate::rules::{rules_keep, rules_lifetime, DHTRules};
use crate::service::{KVStoreService, NodeState, Onward};
use vstd::prelude::*;

verus! {

/// The same command, where results count by their sequence.
pub open spec fn same_command<P: Peer, V: KeyVal, VR, M>(
    c: KVStoreCommand<P, V, VR, M>,
    d: KVStoreCommand<P, V, VR, M>,
) -> bool {
    match (c, d) {
        (KVStoreCommand::Store(q, vs), KVStoreCommand::Store(r, ws)) => q == r && vs@ == ws@,
        _ => c == d,
    }
}

/// The same answer, where results count by their sequence.
pub open spec fn same_reply<VR>(r: KVStoreReply<VR>, s: KVStoreReply<VR>) -> bool {
    match (r, s) {
        (KVStoreReply::FoundApiMult(vs, a), KVStoreReply::FoundApiMult(ws, b)) => vs@ == ws@ && a
            == b,
        _ => r == s,
    }
}

/// A reference comes back from its sendable form as it was.
pub open spec fn refs_survive<R: SRef>() -> bool {
    forall|r: R, s: R::Send, back: R| #[trigger]
        sendable_of(r, s) && #[trigger] ref_of(s, back) ==> back == r
}

/// `d` is `c` with its message and key cloned, where results count by their sequence.
pub open spec fn same_but_cloned<P: Peer, V: KeyVal, VR, M: Clone>(
    c: KVStoreCommand<P, V, VR, M>,
    d: KVStoreCommand<P, V, VR, M>,
) -> bool {
    match (c, d) {
        (KVStoreCommand::Find(m, k, a), KVStoreCommand::Find(n, l, b)) => {
            &&& cloned(m, n)
            &&& cloned(k, l)
            &&& a == b
        },
        (KVStoreCommand::FindLocally(k, a), KVStoreCommand::FindLocally(l, b)) => {
            &&& cloned(k, l)
            &&& a == b
        },
        _ => same_command(c, d),
    }
}

/// A command that crossed threads is the command that was sent, if references survive.
pub proof fn law_command_survives_threads<P: Peer, V: KeyVal, VR: Ref<V>, M: Clone>(
    c: KVStoreCommand<P, V, VR, M>,
    s: KVStoreCommandSend<P, V, VR, M>,
    back: KVStoreCommand<P, V, VR, M>,
)
    requires
        refs_survive::<VR>(),
        command_sendable_of(c, s),
        command_ref_of(s, back),
    ensures
        same_but_cloned(c, back),
{
    match (c, s, back) {
        (
            KVStoreCommand::Store(_, vs),
            KVStoreCommandSend::Store(_, ss),
            KVStoreCommand::Store(_, ws),
        ) => {
            assert forall|i: int| 0 <= i < vs@.len() implies ws@[i] == vs@[i] by {
                assert(sendable_of(vs@[i], ss@[i]) && ref_of::<VR>(ss@[i], ws@[i]));
            }
            assert(vs@ =~= ws@);
        },
        _ => {},
    }
}

/// An answer that crossed threads is the answer that was sent, if references survive.
pub proof fn law_reply_survives_threads<VR: SRef>(
    r: KVStoreReply<VR>,
    s: KVStoreReplySend<VR>,
    back: KVStoreReply<VR>,
)
    requires
        refs_survive::<VR>(),
        reply_sendable_of(r, s),
        reply_ref_of(s, back),
    ensures
        same_reply(r, back),
{
    match (r, s, back) {
        (
            KVStoreReply::FoundApiMult(vs, _),
            KVStoreReplySend::FoundApiMult(ss, _),
            KVStoreReply::FoundApiMult(ws, _),
        ) => {
            assert forall|i: int| 0 <= i < vs@.len() implies ws@[i] == vs@[i] by {
                assert(sendable_of(vs@[i], ss@[i]) && ref_of::<VR>(ss@[i], ws@[i]));
            }
            assert(vs@ =~= ws@);
        },
        (
            KVStoreReply::FoundApi(Some(v), _),
            KVStoreReplySend::FoundApi(Some(sv), _),
            KVStoreReply::FoundApi(Some(w), _),
        ) => {
            assert(sendable_of(v, sv) && ref_of::<VR>(sv, w));
        },
        _ => {},
    }
}

/// A command that crossed the network is the command that was sent, but for the api request it
/// answered on the node that sent it: a command says the same as the message made of it, and so
/// does the command made of the message.
pub proof fn law_command_survives_network<P: Peer, V: KeyVal, VR: Ref<V>, M>(
    c: KVStoreCommand<P, V, VR, M>,
    m: KVStoreProtoMsg<P, V, VR, M>,
    back: KVStoreCommand<P, V, VR, M>,
)
    requires
        says(m, c),
        says(m, back),
        back.api_id() is None,
    ensures
        crosses(back),
        c.api_id() is None ==> same_command(c, back),
        c matches KVStoreCommand::Find(msg, key, _) ==> back == KVStoreCommand::<P, V, VR, M>::Find(
            msg,
            key,
            None,
        ),
        m !is PROPAGATE,
{
}

/// A message is made again of the command that it stands for, but for the allocation of its
/// results.
pub proof fn law_message_survives_command<P: Peer, V: KeyVal, VR: Ref<V>, M>(
    m: KVStoreProtoMsg<P, V, VR, M>,
    c: KVStoreCommand<P, V, VR, M>,
    again: KVStoreProtoMsg<P, V, VR, M>,
)
    requires
        says(m, c),
        says(again, c),
    ensures
        crosses(c),
        match (m, again) {
            (KVStoreProtoMsg::STORE(q, ws), KVStoreProtoMsg::STORE(r, xs)) => q == r && refs_in(ws@)
                == refs_in(xs@),
            _ => m == again,
        },
{
}

/// Setting the api request to answer is reading it back where the command can answer one, and
/// changes nothing elsewhere. No other command has one.
pub proof fn law_api_id_set_and_read<P: Peer, V: KeyVal, VR, M>(
    c: KVStoreCommand<P, V, VR, M>,
    i: ApiQueryId,
    j: ApiQueryId,
)
    ensures
        c.api_repliable() ==> c.with_api_id(i).api_id() == Some(i),
        !c.api_repliable() ==> c.with_api_id(i) == c && c.api_id() is None,
        c.with_api_id(i).api_repliable() == c.api_repliable(),
        c.with_api_id(i).with_api_id(j) == c.with_api_id(j),
        c.api_id() matches Some(a) ==> c.with_api_id(a) == c,
{
}

/// Every part is marked as wanted by the store of peers.
pub open spec fn all_marked<P: Peer, PR, GSC, GSR, M>(r: GlobalReply<P, PR, GSC, GSR, M>) -> bool
    decreases r,
{
    match r {
        GlobalReply::Forward(_, _, _, _) => false,
        GlobalReply::Api(_) => false,
        GlobalReply::Mult(rs) => forall|i: int|
            0 <= i < rs@.len() ==> all_marked(#[trigger] rs@[i]),
        _ => true,
    }
}

/// What comes out of the marking holds nothing that is not marked, at any depth.
pub proof fn law_marking_is_complete<P: Peer, PR, GSC, GSR, M>(
    t: PeerStoreReply<P, PR, M>,
    r: GlobalReply<P, PR, GSC, GSR, M>,
)
    requires
        marked_as_peer(t, r),
    ensures
        all_marked(r),
    decreases t,
{
    match (t, r) {
        (GlobalReply::Mult(ts), GlobalReply::Mult(rs)) => {
            assert forall|i: int| 0 <= i < rs@.len() implies all_marked(#[trigger] rs@[i]) by {
                assert(marked_as_peer(ts@[i], rs@[i]));
                assert(decreases_to!(t => ts@[i]));
                law_marking_is_complete(ts@[i], rs@[i]);
            }
        },
        _ => {},
    }
}

/// Marking twice is marking once.
pub proof fn law_marking_twice<P: Peer, PR, GSC, GSR, M>(
    t: PeerStoreReply<P, PR, M>,
    once: PeerStoreReply<P, PR, M>,
    twice: GlobalReply<P, PR, GSC, GSR, M>,
)
    requires
        marked_as_peer(t, once),
        marked_as_peer(once, twice),
    ensures
        marked_as_peer(t, twice),
    decreases t,
{
    match (t, once, twice) {
        (GlobalReply::Mult(ts), GlobalReply::Mult(os), GlobalReply::Mult(ws)) => {
            assert forall|i: int| 0 <= i < ts@.len() implies marked_as_peer(
                #[trigger] ts@[i],
                ws@[i],
            ) by {
                assert(marked_as_peer(ts@[i], os@[i]));
                assert(marked_as_peer(os@[i], ws@[i]));
                assert(decreases_to!(t => ts@[i]));
                law_marking_twice(ts@[i], os@[i], ws@[i]);
            }
        },
        _ => {},
    }
}

/// `out` sends nothing to other nodes but searches, results and reports of missed searches, on
/// behalf of no api request; and it speaks for no store of peers.
pub open spec fn sends_only_messages<P: Peer, RP, V: KeyVal, VR, M>(
    out: StoreReply<P, RP, V, VR, M>,
) -> bool
    decreases out,
{
    match out {
        GlobalReply::Forward(_, _, _, c) => crosses(c) && c.api_id() is None,
        GlobalReply::PeerForward(_, _, _, _) => false,
        GlobalReply::PeerApi(_) => false,
        GlobalReply::Mult(outs) => forall|i: int|
            0 <= i < outs@.len() ==> sends_only_messages(#[trigger] outs@[i]),
        _ => true,
    }
}

/// `out` sends no search to other nodes.
pub open spec fn sends_no_search<P: Peer, RP, V: KeyVal, VR, M>(
    out: StoreReply<P, RP, V, VR, M>,
) -> bool {
    &&& out !is Mult
    &&& out matches GlobalReply::Forward(_, _, _, c) ==> c !is Find
}

impl<P, RP, V, VR, S, DR, QC, M, F> KVStoreService<P, RP, V, VR, S, DR, QC, M, F> where
    P: Peer,
    RP: Ref<P>,
    V: KeyVal,
    VR: Ref<V>,
    S: KVStore<V>,
    DR: DHTRules,
    QC: QueryCache<M, VR, RP>,
    M: ModeInfo<P, RP, DR>,
 {
    /// A command that succeeds leaves the store open, and an open store stays open.
    pub proof fn law_store_stays_open(
        before: Self,
        req: GlobalCommand<RP, KVStoreCommand<P, V, VR, M>>,
        times: Set<Nanos>,
        after: Self,
        out: Result<StoreReply<P, RP, V, VR, M>, Error>,
    ) where F: OpenStore<S>
        requires
            Self::called(before, req, times, after, out),
        ensures
            out is Ok ==> after.store is Some,
            before.store is Some ==> after.store is Some,
    {
    }

    /// A command that finds the store closed opens it by one call. If that fails, the store stays
    /// closed and the error is the answer; otherwise only a search can be refused.
    pub proof fn law_store_is_opened_by_one_call(
        before: Self,
        req: GlobalCommand<RP, KVStoreCommand<P, V, VR, M>>,
        times: Set<Nanos>,
        after: Self,
        out: Result<StoreReply<P, RP, V, VR, M>, Error>,
    ) -> (r: Result<S, Error>) where F: OpenStore<S>
        requires
            Self::called(before, req, times, after, out),
            before.store is None,
        ensures
            F::opened(before.init_store, after.init_store, r),
            r is Err <==> after.store is None,
            r matches Err(e) ==> out == Err::<StoreReply<P, RP, V, VR, M>, Error>(e),
            r is Ok && req.1 !is Find ==> out is Ok,
    {
        choose|r: Result<S, Error>| #[trigger]
            F::opened(before.init_store, after.init_store, r) && match r {
                Ok(s) => {
                    &&& after.store is Some
                    &&& Self::step(
                        before.me,
                        before.dht_rules,
                        NodeState { store: s, cache: before.query_cache },
                        req.0,
                        req.1,
                        times,
                        after.state(),
                        out,
                    )
                },
                Err(e) => {
                    &&& after.store is None
                    &&& after.query_cache == before.query_cache
                    &&& out == Err::<StoreReply<P, RP, V, VR, M>, Error>(e)
                },
            }
    }

    /// Of all the commands from one that opens the store on, that one alone calls what opens it,
    /// and it does so once; none of the later ones fails for want of a store.
    pub proof fn law_store_is_opened_once(
        states: Seq<Self>,
        reqs: Seq<GlobalCommand<RP, KVStoreCommand<P, V, VR, M>>>,
        times: Seq<Set<Nanos>>,
        outs: Seq<Result<StoreReply<P, RP, V, VR, M>, Error>>,
    ) -> (r: Result<S, Error>) where F: OpenStore<S>
        requires
            outs.len() > 0,
            states.len() == outs.len() + 1,
            reqs.len() == outs.len(),
            times.len() == outs.len(),
            forall|i: int|
                #![trigger outs[i]]
                0 <= i < outs.len() ==> Self::called(
                    states[i],
                    reqs[i],
                    times[i],
                    states[i + 1],
                    outs[i],
                ),
            states[0].store is None,
            states[1].store is Some,
        ensures
            r is Ok,
            F::opened(states[0].init_store, states.last().init_store, r),
            forall|i: int|
                0 < i < states.len() ==> #[trigger] states[i].store is Some && states[i].init_store
                    == states.last().init_store,
            forall|i: int|
                #![trigger outs[i]]
                0 <= i < outs.len() && outs[i] is Err ==> reqs[i].1 is Find,
        decreases outs.len(),
    {
        let n = outs.len() as int;
        assert(Self::called(states[n - 1], reqs[n - 1], times[n - 1], states[n], outs[n - 1]));
        if n == 1 {
            Self::law_store_is_opened_by_one_call(
                states[0],
                reqs[0],
                times[0],
                states[1],
                outs[0],
            )
        } else {
            assert forall|i: int|
                #![trigger outs.drop_last()[i]]
                0 <= i < n - 1 implies Self::called(
                states.drop_last()[i],
                reqs.drop_last()[i],
                times.drop_last()[i],
                states.drop_last()[i + 1],
                outs.drop_last()[i],
            ) by {
                assert(outs.drop_last()[i] == outs[i]);
            }
            let r = Self::law_store_is_opened_once(
                states.drop_last(),
                reqs.drop_last(),
                times.drop_last(),
                outs.drop_last(),
            );
            assert forall|i: int| 0 < i < states.len() implies #[trigger] states[i].store is Some
                && states[i].init_store == states.last().init_store by {
                assert(states.drop_last()[n - 1].store is Some);
                if i < n {
                    assert(states.drop_last()[i].store is Some);
                }
            }
            assert forall|i: int|
                #![trigger outs[i]]
                0 <= i < outs.len() && outs[i] is Err implies reqs[i].1 is Find by {
                if i < n - 1 {
                    assert(outs.drop_last()[i] is Err);
                }
            }
            r
        }
    }

    /// Searches and reports of missed searches leave the store as it is.
    pub proof fn law_only_results_change_the_store(
        me: RP,
        rules: DR,
        pre: NodeState<S, QC>,
        owith: Option<RP>,
        c: KVStoreCommand<P, V, VR, M>,
        times: Set<Nanos>,
        post: NodeState<S, QC>,
        out: Result<StoreReply<P, RP, V, VR, M>, Error>,
    )
        requires
            Self::step(me, rules, pre, owith, c, times, post, out),
            c !is Store,
            c !is StoreLocally,
        ensures
            post.store == pre.store,
    {
    }

    /// Results, reports of missed searches and searches that go on are all that touches the query
    /// cache, and a store that fails to open leaves it too.
    pub proof fn law_query_cache_is_left_alone(
        before: Self,
        req: GlobalCommand<RP, KVStoreCommand<P, V, VR, M>>,
        times: Set<Nanos>,
        after: Self,
        out: Result<StoreReply<P, RP, V, VR, M>, Error>,
    ) where F: OpenStore<S>
        requires
            Self::called(before, req, times, after, out),
        ensures
            req.1 is Start || req.1 is StoreLocally || req.1 is FindLocally ==> after.query_cache
                == before.query_cache,
            req.1 is Find && (out matches Ok(r) ==> sends_no_search(r)) && (out matches Err(e)
                ==> e !is ExpireOutOfRange) ==> after.query_cache == before.query_cache,
            after.store is None ==> after.query_cache == before.query_cache,
    {
    }

    /// Only a search can be refused. It changes nothing, but that a new id may have been drawn for
    /// one that cannot be dated.
    pub proof fn law_only_a_search_fails(
        me: RP,
        rules: DR,
        pre: NodeState<S, QC>,
        owith: Option<RP>,
        c: KVStoreCommand<P, V, VR, M>,
        times: Set<Nanos>,
        post: NodeState<S, QC>,
        out: Result<StoreReply<P, RP, V, VR, M>, Error>,
    )
        requires
            Self::step(me, rules, pre, owith, c, times, post, out),
            out is Err,
        ensures
            c is Find,
            post.store == pre.store,
            post.cache.queries() == pre.cache.queries(),
            out matches Err(e) ==> e !is ExpireOutOfRange ==> post == pre,
    {
    }

    /// At a time that a clock can show, no search is refused for its date where the rules give
    /// lifetimes that a clock could show too.
    pub proof fn law_searches_can_be_dated(
        me: RP,
        rules: DR,
        pre: NodeState<S, QC>,
        owith: Option<RP>,
        c: KVStoreCommand<P, V, VR, M>,
        times: Set<Nanos>,
        post: NodeState<S, QC>,
        out: Result<StoreReply<P, RP, V, VR, M>, Error>,
    )
        requires
            Self::step(me, rules, pre, owith, c, times, post, out),
            forall|now: Nanos| #[trigger] times.contains(now) ==> now <= LONGEST_SPAN,
            forall|prio: QueryPriority, t: Nanos| #[trigger]
                rules_lifetime(rules, prio, t) ==> t <= LONGEST_SPAN,
        ensures
            out matches Err(e) ==> e is NoResultExpected,
    {
    }

    /// Results and reports for a query that does not wait here change nothing and are not
    /// answered.
    pub proof fn law_late_answers_are_dropped(
        me: RP,
        rules: DR,
        pre: NodeState<S, QC>,
        owith: Option<RP>,
        c: KVStoreCommand<P, V, VR, M>,
        qid: QueryID,
        times: Set<Nanos>,
        post: NodeState<S, QC>,
        out: Result<StoreReply<P, RP, V, VR, M>, Error>,
    )
        requires
            Self::step(me, rules, pre, owith, c, times, post, out),
            c is NotFound || c is Store,
            c matches KVStoreCommand::NotFound(q) ==> q == qid,
            c matches KVStoreCommand::Store(q, _) ==> q == qid,
            !pre.cache.queries().contains_key(qid),
        ensures
            post.store == pre.store,
            post.cache.queries() == pre.cache.queries(),
            post.cache.new_ids() == pre.cache.new_ids(),
            out matches Ok(r) && r is NoRep,
    {
    }

    /// Every command leaves all pending queries but at most one as they are.
    pub proof fn law_queries_do_not_interfere(
        me: RP,
        rules: DR,
        pre: NodeState<S, QC>,
        owith: Option<RP>,
        c: KVStoreCommand<P, V, VR, M>,
        times: Set<Nanos>,
        post: NodeState<S, QC>,
        out: Result<StoreReply<P, RP, V, VR, M>, Error>,
    ) -> (one: QueryID)
        requires
            Self::step(me, rules, pre, owith, c, times, post, out),
        ensures
            post.cache.queries().remove(one) == pre.cache.queries().remove(one),
            c matches KVStoreCommand::Store(q, _) ==> one == q,
            c matches KVStoreCommand::NotFound(q) ==> one == q,
            !(c is Store || c is NotFound || c is Find) ==> post.cache == pre.cache,
    {
        match c {
            KVStoreCommand::Store(qid, _) => {
                assert(post.cache.queries().remove(qid) =~= pre.cache.queries().remove(qid));
                qid
            },
            KVStoreCommand::NotFound(qid) => {
                assert(post.cache.queries().remove(qid) =~= pre.cache.queries().remove(qid));
                qid
            },
            KVStoreCommand::Find(msg, key, oapi) => {
                if post.cache.queries() == pre.cache.queries() {
                    0
                } else {
                    let o = choose|o: Option<V>| #[trigger]
                        answers(pre.store, key, o) && Self::find_with(
                            me,
                            rules,
                            pre.cache,
                            owith,
                            msg,
                            key,
                            oapi,
                            times,
                            o,
                            post.cache,
                            out,
                        );
                    let (w, mid) = choose|w: Onward<P, M>, mid: QC| #[trigger]
                        Self::may_send_on(
                            me,
                            rules,
                            pre.cache,
                            Self::left_to_find(msg, o),
                            w,
                            mid,
                        ) && Self::goes_on(
                            rules,
                            mid,
                            owith,
                            key,
                            oapi,
                            times,
                            o,
                            w,
                            post.cache,
                            out,
                        );
                    assert(post.cache.queries().remove(w.qid) =~= pre.cache.queries().remove(
                        w.qid,
                    ));
                    w.qid
                }
            },
            _ => 0,
        }
    }

    /// An api request whose search was sent on is answered by the results and reports that come
    /// in exactly when its query is forgotten, with its own id.
    pub proof fn law_api_is_answered_when_its_query_is_forgotten(
        me: RP,
        rules: DR,
        pre: NodeState<S, QC>,
        owith: Option<RP>,
        c: KVStoreCommand<P, V, VR, M>,
        qid: QueryID,
        api: ApiQueryId,
        prio: QueryPriority,
        times: Set<Nanos>,
        post: NodeState<S, QC>,
        out: Result<StoreReply<P, RP, V, VR, M>, Error>,
    )
        requires
            Self::step(me, rules, pre, owith, c, times, post, out),
            c is NotFound || c is Store,
            c matches KVStoreCommand::NotFound(q) ==> q == qid,
            c matches KVStoreCommand::Store(q, _) ==> q == qid,
            pre.cache.queries().contains_key(qid),
            pre.cache.queries()[qid].asker == Asker::<M, RP>::Api(api, prio),
        ensures
            out is Ok,
            post.cache.queries().contains_key(qid) ==> out->Ok_0 is NoRep,
            !post.cache.queries().contains_key(qid) ==> (out->Ok_0 matches GlobalReply::Api(r)
                && r.api_id() == api),
    {
    }

    /// An answer to the api carries the id of the request that the command came with, or of the
    /// request whose query it ended. A value stored, or looked for on this node only, for the api
    /// is always answered.
    pub proof fn law_answers_carry_the_right_id(
        me: RP,
        rules: DR,
        pre: NodeState<S, QC>,
        owith: Option<RP>,
        c: KVStoreCommand<P, V, VR, M>,
        times: Set<Nanos>,
        post: NodeState<S, QC>,
        out: StoreReply<P, RP, V, VR, M>,
    )
        requires
            Self::step(me, rules, pre, owith, c, times, post, Ok(out)),
        ensures
            c.api_repliable() ==> (out matches GlobalReply::Api(r) ==> c.api_id() == Some(
                r.api_id(),
            )),
            (c is FindLocally || c is StoreLocally) && c.api_id() is Some ==> out is Api,
            c matches KVStoreCommand::Store(qid, _) ==> (out matches GlobalReply::Api(r)
                ==> pre.cache.queries().contains_key(qid) && (
            pre.cache.queries()[qid].asker matches Asker::Api(a, _) && a == r.api_id())),
            c matches KVStoreCommand::NotFound(qid) ==> (out matches GlobalReply::Api(r)
                ==> pre.cache.queries().contains_key(qid) && (
            pre.cache.queries()[qid].asker matches Asker::Api(a, _) && a == r.api_id())),
    {
    }

    /// All that the service sends to other nodes can cross the network as it is.
    pub proof fn law_only_messages_are_sent(
        me: RP,
        rules: DR,
        pre: NodeState<S, QC>,
        owith: Option<RP>,
        c: KVStoreCommand<P, V, VR, M>,
        times: Set<Nanos>,
        post: NodeState<S, QC>,
        out: StoreReply<P, RP, V, VR, M>,
    )
        requires
            Self::step(me, rules, pre, owith, c, times, post, Ok(out)),
        ensures
            sends_only_messages(out),
    {
        if let GlobalReply::Mult(outs) = out {
            assert(outs@.len() == 2);
            assert forall|i: int| 0 <= i < outs@.len() implies sends_only_messages(
                #[trigger] outs@[i],
            ) by {
                assert(i == 0 || i == 1);
            }
        }
    }

    /// A search goes no further when no hop is left, or when the one result that was still
    /// expected is here; and it is not recorded.
    pub proof fn law_search_stops(
        me: RP,
        rules: DR,
        before: QC,
        owith: Option<RP>,
        msg: QueryMsg<P, M>,
        key: V::Key,
        oapi: Option<ApiQueryId>,
        times: Set<Nanos>,
        o: Option<V>,
        after: QC,
        out: StoreReply<P, RP, V, VR, M>,
    )
        requires
            Self::find_with(
                me,
                rules,
                before,
                owith,
                msg,
                key,
                oapi,
                times,
                o,
                after,
                Ok(out),
            ),
            msg.rem_hop == 0 || msg.nb_res == 0 || (o is Some && msg.nb_res == 1),
        ensures
            sends_no_search(out),
            after == before,
    {
    }

    /// A search that goes on is recorded for whoever asked, until a time that is not past, in
    /// place of nothing but what was recorded under the same id.
    pub proof fn law_search_is_recorded(
        me: RP,
        rules: DR,
        before: QC,
        owith: Option<RP>,
        msg: QueryMsg<P, M>,
        key: V::Key,
        oapi: Option<ApiQueryId>,
        times: Set<Nanos>,
        o: Option<V>,
        after: QC,
        out: StoreReply<P, RP, V, VR, M>,
    ) -> (q: Pending<M, VR, RP>)
        requires
            Self::find_with(
                me,
                rules,
                before,
                owith,
                msg,
                key,
                oapi,
                times,
                o,
                after,
                Ok(out),
            ),
            !sends_no_search(out),
        ensures
            after.queries() == before.queries().insert(q.id, q),
            exists|mid: QC| #[trigger]
                Self::numbered(before, msg.mode_info, q.id, mid) && after.new_ids()
                    == mid.new_ids(),
            q.expire matches Some(t) && exists|now: Nanos| #[trigger]
                times.contains(now) && now <= t,
            oapi matches Some(a) ==> (q.asker matches Asker::Api(b, _) && a == b),
            oapi is None ==> q.asker is Node,
            q.results.len() <= 1,
            o is None ==> q.results.len() == 0,
    {
        let left = Self::left_to_find(msg, o);
        let (w, mid) = choose|w: Onward<P, M>, mid: QC| #[trigger]
            Self::may_send_on(me, rules, before, left, w, mid) && Self::goes_on(
                rules,
                mid,
                owith,
                key,
                oapi,
                times,
                o,
                w,
                after,
                Ok(out),
            );
        let (now, lifetime) = choose|now: Nanos, lifetime: Nanos| #[trigger]
            times.contains(now) && #[trigger] rules_lifetime(rules, w.msg.prio, lifetime) && now
                + lifetime <= u128::MAX && Self::goes_on_until(
                mid,
                owith,
                key,
                oapi,
                (now + lifetime) as u128,
                o,
                w,
                after,
                out,
            );
        let (found, q) = choose|found: Option<VR>, q: Pending<M, VR, RP>|
            {
                &&& Self::wraps(o, found)
                &&& #[trigger] Self::opens(
                    w,
                    owith,
                    oapi,
                    (now + lifetime) as u128,
                    found,
                    q,
                )
                &&& after.queries() == mid.queries().insert(w.qid, q)
                &&& after.new_ids() == mid.new_ids()
                &&& Self::sends_on(w, owith, key, found, out)
            };
        q
    }

    /// A search that goes on under a new id takes the place of no other query, if new ids are
    /// not in use.
    pub proof fn law_new_ids_displace_nothing(
        me: RP,
        rules: DR,
        before: QC,
        owith: Option<RP>,
        msg: QueryMsg<P, M>,
        key: V::Key,
        oapi: Option<ApiQueryId>,
        times: Set<Nanos>,
        o: Option<V>,
        after: QC,
        out: StoreReply<P, RP, V, VR, M>,
    )
        requires
            Self::find_with(
                me,
                rules,
                before,
                owith,
                msg,
                key,
                oapi,
                times,
                o,
                after,
                Ok(out),
            ),
            before.new_ids().disjoint(before.queries().dom()),
            forall|fresh: bool| #[trigger]
                renumbers::<P, RP, DR, M>(msg.mode_info, fresh) ==> fresh,
        ensures
            before.queries().submap_of(after.queries()),
    {
        if !sends_no_search(out) {
            let q = Self::law_search_is_recorded(
                me,
                rules,
                before,
                owith,
                msg,
                key,
                oapi,
                times,
                o,
                after,
                out,
            );
            assert(!before.queries().contains_key(q.id));
        } else {
            assert(after == before);
        }
    }

    /// Ids that may be given next and are not in use stay so until one is drawn for a search.
    pub proof fn law_new_ids_stay_unused(
        me: RP,
        rules: DR,
        pre: NodeState<S, QC>,
        owith: Option<RP>,
        c: KVStoreCommand<P, V, VR, M>,
        times: Set<Nanos>,
        post: NodeState<S, QC>,
        out: Result<StoreReply<P, RP, V, VR, M>, Error>,
    )
        requires
            Self::step(me, rules, pre, owith, c, times, post, out),
            pre.cache.new_ids().disjoint(pre.cache.queries().dom()),
            c !is Find,
        ensures
            post.cache.new_ids() == pre.cache.new_ids(),
            post.cache.new_ids().disjoint(post.cache.queries().dom()),
    {
    }

    /// Every pending query is recorded under its own id and with a time at which it may be
    /// forgotten.
    pub open spec fn well_recorded(queries: Map<QueryID, Pending<M, VR, RP>>) -> bool {
        forall|id: QueryID| #[trigger]
            queries.contains_key(id) ==> queries[id].id == id && queries[id].expire is Some
    }

    /// Pending queries stay under their own ids, with a time at which they may be forgotten.
    pub proof fn law_queries_stay_well_recorded(
        me: RP,
        rules: DR,
        pre: NodeState<S, QC>,
        owith: Option<RP>,
        c: KVStoreCommand<P, V, VR, M>,
        times: Set<Nanos>,
        post: NodeState<S, QC>,
        out: Result<StoreReply<P, RP, V, VR, M>, Error>,
    )
        requires
            Self::step(me, rules, pre, owith, c, times, post, out),
            Self::well_recorded(pre.cache.queries()),
        ensures
            Self::well_recorded(post.cache.queries()),
    {
        match (c, out) {
            (KVStoreCommand::Find(msg, key, oapi), Ok(r)) if !sends_no_search(r) => {
                let o = choose|o: Option<V>| #[trigger]
                    answers(pre.store, key, o) && Self::find_with(
                        me,
                        rules,
                        pre.cache,
                        owith,
                        msg,
                        key,
                        oapi,
                        times,
                        o,
                        post.cache,
                        out,
                    );
                let q = Self::law_search_is_recorded(
                    me,
                    rules,
                    pre.cache,
                    owith,
                    msg,
                    key,
                    oapi,
                    times,
                    o,
                    post.cache,
                    r,
                );
            },
            _ => {},
        }
    }

    /// `batches` one after the other.
    pub open spec fn joined(batches: Seq<Seq<VR>>) -> Seq<VR>
        decreases batches.len(),
    {
        if batches.len() == 0 {
            Seq::empty()
        } else {
            Self::joined(batches.drop_last()) + batches.last()
        }
    }

    /// Results for `asker` are gathered here, whichever answer the rules give.
    pub open spec fn always_gathers(rules: DR, asker: Asker<M, RP>) -> bool {
        asker matches Asker::Node(info, _) ==> forall|report: bool| #[trigger]
            Self::reports(rules, info, report) ==> report
    }

    proof fn lemma_gathering(
        rules: DR,
        qid: QueryID,
        states: Seq<NodeState<S, QC>>,
        batches: Seq<Seq<VR>>,
        outs: Seq<StoreReply<P, RP, V, VR, M>>,
        k: int,
    )
        requires
            0 <= k < batches.len(),
            states.len() == batches.len() + 1,
            outs.len() == batches.len(),
            states[0].cache.queries().contains_key(qid),
            Self::always_gathers(rules, states[0].cache.queries()[qid].asker),
            forall|i: int|
                #![trigger outs[i]]
                0 <= i < outs.len() ==> Self::store_step(
                    rules,
                    states[i],
                    qid,
                    batches[i],
                    states[i + 1],
                    outs[i],
                ),
            forall|j: int|
                0 < j <= k ==> !states[0].cache.queries()[qid].gain(
                    Self::joined(#[trigger] batches.take(j)),
                ).full(),
        ensures
            states[k].cache.queries() == states[0].cache.queries().insert(
                qid,
                states[0].cache.queries()[qid].gain(Self::joined(batches.take(k))),
            ),
            forall|i: int| 0 <= i < k ==> #[trigger] outs[i] is NoRep,
            Self::gathered(
                states[k].cache.queries(),
                qid,
                batches[k],
                states[k + 1].cache.queries(),
                outs[k],
            ),
        decreases k,
    {
        let start = states[0].cache.queries();
        let q = start[qid];
        if k == 0 {
            assert(q.gain(Self::joined(batches.take(0))).results =~= q.results);
            assert(start =~= start.insert(qid, q));
        } else {
            Self::lemma_gathering(rules, qid, states, batches, outs, k - 1);
            assert(batches.take(k).drop_last() =~= batches.take(k - 1));
            let was = q.gain(Self::joined(batches.take(k - 1)));
            let now = q.gain(Self::joined(batches.take(k)));
            assert(was.gain(batches[k - 1]).results =~= now.results);
            assert(!now.full());
            assert(start.insert(qid, was).insert(qid, now) =~= start.insert(qid, now));
        }
        assert(Self::store_step(
            rules,
            states[k],
            qid,
            batches[k],
            states[k + 1],
            outs[k],
        ));
    }

    /// Results that are gathered come out as they came in: in order, all of them, none before as
    /// many as expected are there, and then at once; the query is then forgotten.
    pub proof fn law_results_are_gathered(
        rules: DR,
        qid: QueryID,
        states: Seq<NodeState<S, QC>>,
        batches: Seq<Seq<VR>>,
        outs: Seq<StoreReply<P, RP, V, VR, M>>,
    )
        requires
            batches.len() > 0,
            states.len() == batches.len() + 1,
            outs.len() == batches.len(),
            states[0].cache.queries().contains_key(qid),
            Self::always_gathers(rules, states[0].cache.queries()[qid].asker),
            forall|i: int|
                #![trigger outs[i]]
                0 <= i < outs.len() ==> Self::store_step(
                    rules,
                    states[i],
                    qid,
                    batches[i],
                    states[i + 1],
                    outs[i],
                ),
            forall|j: int|
                0 < j < batches.len() ==> !states[0].cache.queries()[qid].gain(
                    Self::joined(#[trigger] batches.take(j)),
                ).full(),
        ensures
            forall|i: int| 0 <= i < batches.len() - 1 ==> #[trigger] outs[i] is NoRep,
            ({
                let all = states[0].cache.queries()[qid].gain(Self::joined(batches));
                if all.full() {
                    &&& Self::answers_asker(all.asker, all.results, outs.last())
                    &&& states.last().cache.queries() == states[0].cache.queries().remove(qid)
                } else {
                    &&& outs.last() is NoRep
                    &&& states.last().cache.queries() == states[0].cache.queries().insert(qid, all)
                }
            }),
    {
        let n = batches.len() as int;
        Self::lemma_gathering(rules, qid, states, batches, outs, n - 1);
        assert(batches.drop_last() =~= batches.take(n - 1));
        let start = states[0].cache.queries();
        let was = start[qid].gain(Self::joined(batches.take(n - 1)));
        let all = start[qid].gain(Self::joined(batches));
        assert(was.gain(batches[n - 1]).results =~= all.results);
        assert(start.insert(qid, was).insert(qid, all) =~= start.insert(qid, all));
        assert(start.insert(qid, was).remove(qid) =~= start.remove(qid));
    }

    proof fn lemma_counting(
        rules: DR,
        qid: QueryID,
        states: Seq<NodeState<S, QC>>,
        outs: Seq<StoreReply<P, RP, V, VR, M>>,
        k: int,
    )
        requires
            0 <= k < outs.len(),
            states.len() == outs.len() + 1,
            states[0].cache.queries().contains_key(qid),
            states[0].cache.queries()[qid].nb_not_found == outs.len(),
            forall|i: int|
                #![trigger outs[i]]
                0 <= i < outs.len() ==> Self::not_found_step(
                    rules,
                    states[i],
                    qid,
                    states[i + 1],
                    outs[i],
                ),
        ensures
            states[k].store == states[0].store,
            states[k].cache.queries() == states[0].cache.queries().insert(
                qid,
                Pending {
                    nb_not_found: (outs.len() - k) as usize,
                    ..states[0].cache.queries()[qid]
                },
            ),
            forall|i: int| 0 <= i < k ==> #[trigger] outs[i] is NoRep,
        decreases k,
    {
        let start = states[0].cache.queries();
        if k == 0 {
            assert(start =~= start.insert(qid, start[qid]));
        } else {
            Self::lemma_counting(rules, qid, states, outs, k - 1);
            assert(Self::not_found_step(
                rules,
                states[k - 1],
                qid,
                states[k - 1 + 1],
                outs[k - 1],
            ));
            assert(states[k].cache.queries() =~= start.insert(
                qid,
                Pending { nb_not_found: (outs.len() - k) as usize, ..start[qid] },
            ));
        }
    }

    /// A query that waits for a number of missed searches ends with the last of them and not
    /// before: it is forgotten, and an api request then gets what was gathered.
    pub proof fn law_missed_searches_are_counted(
        rules: DR,
        qid: QueryID,
        states: Seq<NodeState<S, QC>>,
        outs: Seq<StoreReply<P, RP, V, VR, M>>,
    )
        requires
            outs.len() > 0,
            states.len() == outs.len() + 1,
            states[0].cache.queries().contains_key(qid),
            states[0].cache.queries()[qid].nb_not_found == outs.len(),
            forall|i: int|
                #![trigger outs[i]]
                0 <= i < outs.len() ==> Self::not_found_step(
                    rules,
                    states[i],
                    qid,
                    states[i + 1],
                    outs[i],
                ),
        ensures
            forall|i: int| 0 <= i < outs.len() - 1 ==> #[trigger] outs[i] is NoRep,
            states.last().store == states[0].store,
            states.last().cache.queries() == states[0].cache.queries().remove(qid),
            ({
                let q = states[0].cache.queries()[qid];
                match q.asker {
                    Asker::Node(info, owith) if q.results.len() == 0 => Self::ends_empty(
                        rules,
                        owith,
                        info,
                        None,
                        outs.last(),
                    ),
                    _ => Self::answers_asker(q.asker, q.results, outs.last()),
                }
            }),
    {
        let n = outs.len() as int;
        Self::lemma_counting(rules, qid, states, outs, n - 1);
        assert(outs[n - 1] == outs.last());
        assert(states.last().cache.queries() =~= states[0].cache.queries().remove(qid));
    }

    /// A query that waits for no missed search is not touched by one.
    pub proof fn law_uncounted_misses_are_ignored(
        rules: DR,
        pre: NodeState<S, QC>,
        qid: QueryID,
        post: NodeState<S, QC>,
        out: StoreReply<P, RP, V, VR, M>,
    )
        requires
            Self::not_found_step(rules, pre, qid, post, out),
            pre.cache.queries().contains_key(qid),
            pre.cache.queries()[qid].nb_not_found == 0,
        ensures
            post.store == pre.store,
            post.cache.queries() == pre.cache.queries(),
            out is NoRep,
    {
        assert(post.cache.queries() =~= pre.cache.queries());
    }

    /// What is stored on this node is then found on this node, if the rules have it kept and the
    /// store gives back under `key` what was added last.
    pub proof fn law_stored_value_is_found(
        rules: DR,
        pre: NodeState<S, QC>,
        v: VR,
        prio: QueryPriority,
        oapi: Option<ApiQueryId>,
        mid: NodeState<S, QC>,
        done: StoreReply<P, RP, V, VR, M>,
        key: V::Key,
        api: ApiQueryId,
        post: NodeState<S, QC>,
        out: StoreReply<P, RP, V, VR, M>,
    )
        requires
            Self::store_locally_step(rules, pre, v, prio, oapi, mid, done),
            Self::find_locally_step(mid, key, api, post, out),
            forall|a: (bool, Option<CachePolicy>)| #[trigger]
                rules_keep(rules, true, prio, a) ==> a.0,
            forall|w: V, policy: Option<CachePolicy>, after: S, o: Option<V>|
                #![trigger S::added(pre.store, w, policy, after), answers(after, key, o)]
                Self::copy_of(v, w) && S::added(pre.store, w, policy, after) && answers(
                    after,
                    key,
                    o,
                ) ==> o == Some(w),
        ensures
            exists|w: V, r: VR|
                Self::copy_of(v, w) && #[trigger] made_from(w, r) && gives_one(out, api, Some(r)),
    {
        let a = choose|a: (bool, Option<CachePolicy>)| #[trigger]
            rules_keep(rules, true, prio, a) && Self::kept(pre.store, seq![v], a, mid.store);
        let one = seq![v];
        assert(one.drop_last() =~= Seq::<VR>::empty());
        assert(Self::kept_all(pre.store, one, a.1, mid.store));
        let start = choose|start: S|
            Self::kept_all(pre.store, one.drop_last(), a.1, start) && #[trigger] Self::kept_one(
                start,
                one.last(),
                a.1,
                mid.store,
            );
        assert(start == pre.store);
        let w = choose|w: V|
            Self::copy_of(v, w) && #[trigger] S::added(pre.store, w, a.1, mid.store);
        let (o, r) = choose|o: Option<V>, r: Option<VR>|
            answers(mid.store, key, o) && #[trigger] Self::wraps(o, r) && #[trigger] gives_one(
                out,
                api,
                r,
            );
        assert(o == Some(w));
        assert(made_from(w, r->0));
    }
}

} // verus!
