//! What each command does, as a relation between the state before, the state after and the answer.
//!
//! The store, the rules and the modes of queries are the node's own; where they decide, the
//! relation says that there is an answer of theirs from which the rest follows.
use crate::answer::{
    forwards_find, forwards_not_found, forwards_store, gives_all, gives_one, StoreReply,
};
use crate::command::KVStoreCommand;
use crate::error::Error;
use crate::global::GlobalReply;
use crate::keyval::{answers, lends, made_from, CachePolicy, KVStore, KeyVal, Peer, Ref};
use crate::query::{
    has_mode, has_query_id, hops, leads_to, renumbers, ApiQueryId, Asker, Dests, ModeInfo, Nanos,
    NextHop, Pending, QueryCache, QueryID, QueryMode, QueryMsg, QueryPriority,
};
use crate::reply::KVStoreReply;
use crate::rules::{rules_keep, rules_lifetime, rules_report, rules_threshold, DHTRules};
use crate::service::{KVStoreService, NodeState, Onward};
use vstd::prelude::*;

verus! {

impl<P, RP, V, VR, S, DR, QC, M, F> KVStoreService<P, RP, V, VR, S, DR, QC, M, F> where
    P: Peer,
    RP: Ref<P>,
    V: KeyVal,
    VR: Ref<V>,
    S: KVStore<V>,
    DR: DHTRules,
    QC: QueryCache<M, VR, RP>,
    M: ModeInfo<P, RP, DR>,
 {
    /// `w` is a copy of the value that `r` refers to.
    pub open spec fn copy_of(r: VR, w: V) -> bool {
        exists|t: V| #[trigger] lends(r, t) && cloned(t, w)
    }

    /// `after` is `before` with the value of `r` added.
    pub open spec fn kept_one(before: S, r: VR, policy: Option<CachePolicy>, after: S) -> bool {
        exists|w: V| Self::copy_of(r, w) && #[trigger] S::added(before, w, policy, after)
    }

    /// `after` is `before` with the values of `rs` added, one after the other.
    pub open spec fn kept_all(
        before: S,
        rs: Seq<VR>,
        policy: Option<CachePolicy>,
        after: S,
    ) -> bool
        decreases rs.len(),
    {
        if rs.len() == 0 {
            after == before
        } else {
            exists|mid: S|
                Self::kept_all(before, rs.drop_last(), policy, mid) && #[trigger] Self::kept_one(
                    mid,
                    rs.last(),
                    policy,
                    after,
                )
        }
    }

    /// `after` is `before` with `rs` added if `rule` says so.
    pub open spec fn kept(
        before: S,
        rs: Seq<VR>,
        rule: (bool, Option<CachePolicy>),
        after: S,
    ) -> bool {
        if rule.0 {
            Self::kept_all(before, rs, rule.1, after)
        } else {
            after == before
        }
    }

    /// `after` is `before` with `rs` added if `rules` say so.
    pub open spec fn kept_by(
        rules: DR,
        is_local: bool,
        prio: QueryPriority,
        before: S,
        rs: Seq<VR>,
        after: S,
    ) -> bool {
        exists|a: (bool, Option<CachePolicy>)| #[trigger]
            rules_keep(rules, is_local, prio, a) && Self::kept(before, rs, a, after)
    }

    /// `b` is an answer that `rules` may give about reporting missed searches of the mode `info`.
    pub open spec fn reports(rules: DR, info: M, b: bool) -> bool {
        exists|m: QueryMode|
            has_mode::<P, RP, DR, M>(info, m) && #[trigger] rules_report(rules, m, b)
    }

    /// `r` refers to what `o` holds.
    pub open spec fn wraps(o: Option<V>, r: Option<VR>) -> bool {
        match (o, r) {
            (Some(v), Some(x)) => made_from(v, x),
            (None, None) => true,
            _ => false,
        }
    }

    /// `out` sends `vs` back the way that `info` says.
    pub open spec fn sends_back(
        info: M,
        owith: Option<RP>,
        vs: Seq<VR>,
        out: StoreReply<P, RP, V, VR, M>,
    ) -> bool {
        exists|d: Dests<P, RP>| #[trigger]
            leads_to::<P, RP, DR, M>(info, owith, d) && forwards_store(out, d, vs)
    }

    /// `out` sends `vs` back the way that a clone of `info` says.
    pub open spec fn sends_copy_back(
        info: M,
        owith: Option<RP>,
        vs: Seq<VR>,
        out: StoreReply<P, RP, V, VR, M>,
    ) -> bool {
        exists|i: M| cloned(info, i) && #[trigger] Self::sends_back(i, owith, vs, out)
    }

    /// `out` reports a missed search the way that `info` says.
    pub open spec fn reports_back(
        info: M,
        owith: Option<RP>,
        out: StoreReply<P, RP, V, VR, M>,
    ) -> bool {
        exists|d: Dests<P, RP>| #[trigger]
            leads_to::<P, RP, DR, M>(info, owith, d) && forwards_not_found(out, d)
    }

    /// `out` gives the one result `r` to the api, or sends it back.
    pub open spec fn answered_one(
        owith: Option<RP>,
        info: M,
        oapi: Option<ApiQueryId>,
        r: VR,
        out: StoreReply<P, RP, V, VR, M>,
    ) -> bool {
        match oapi {
            Some(api) => gives_one(out, api, Some(r)),
            None => Self::sends_back(info, owith, seq![r], out),
        }
    }

    /// `out` tells the api, or the node that asked, that nothing was found, if that is reported.
    pub open spec fn answered_empty(
        owith: Option<RP>,
        info: M,
        oapi: Option<ApiQueryId>,
        report: bool,
        out: StoreReply<P, RP, V, VR, M>,
    ) -> bool {
        if !report {
            out is NoRep
        } else {
            match oapi {
                Some(api) => gives_one(out, api, None),
                None => Self::reports_back(info, owith, out),
            }
        }
    }

    /// The search ends here, with `v` found.
    pub open spec fn ends_with(
        owith: Option<RP>,
        info: M,
        oapi: Option<ApiQueryId>,
        v: V,
        out: StoreReply<P, RP, V, VR, M>,
    ) -> bool {
        exists|r: VR| #[trigger] made_from(v, r) && Self::answered_one(owith, info, oapi, r, out)
    }

    /// The search ends here, with nothing found. Also the api is told only if missed searches are
    /// reported.
    pub open spec fn ends_empty(
        rules: DR,
        owith: Option<RP>,
        info: M,
        oapi: Option<ApiQueryId>,
        out: StoreReply<P, RP, V, VR, M>,
    ) -> bool {
        exists|report: bool| #[trigger]
            Self::reports(rules, info, report) && Self::answered_empty(
                owith,
                info,
                oapi,
                report,
                out,
            )
    }

    /// `out` gives `vs` to whoever waits for them.
    pub open spec fn answers_asker(
        asker: Asker<M, RP>,
        vs: Seq<VR>,
        out: StoreReply<P, RP, V, VR, M>,
    ) -> bool {
        match asker {
            Asker::Api(api, _) => gives_all(out, api, vs),
            Asker::Node(info, owith) => Self::sends_back(info, owith, vs, out),
        }
    }

    /// The pending query `qid` gains the results `vs`; with as many as it expects it is answered
    /// and forgotten.
    pub open spec fn gathered(
        before: Map<QueryID, Pending<M, VR, RP>>,
        qid: QueryID,
        vs: Seq<VR>,
        after: Map<QueryID, Pending<M, VR, RP>>,
        out: StoreReply<P, RP, V, VR, M>,
    ) -> bool {
        let q = before[qid].gain(vs);
        if q.full() {
            &&& after == before.remove(qid)
            &&& Self::answers_asker(q.asker, q.results, out)
        } else {
            &&& after == before.insert(qid, q)
            &&& out is NoRep
        }
    }

    /// Results for a query of another node are gathered if missed searches are reported to it;
    /// otherwise they are sent back at once and the query goes on waiting.
    pub open spec fn passed(
        rules: DR,
        before: Map<QueryID, Pending<M, VR, RP>>,
        qid: QueryID,
        info: M,
        owith: Option<RP>,
        vs: Seq<VR>,
        after: Map<QueryID, Pending<M, VR, RP>>,
        out: StoreReply<P, RP, V, VR, M>,
    ) -> bool {
        exists|report: bool| #[trigger]
            Self::reports(rules, info, report) && if report {
                Self::gathered(before, qid, vs, after, out)
            } else {
                &&& after == before
                &&& Self::sends_copy_back(info, owith, vs, out)
            }
    }

    /// Results for a query.
    ///
    /// Those for a query that does not wait here are dropped. The others are kept as the rules
    /// say, and gathered or passed on.
    pub open spec fn store_step(
        rules: DR,
        pre: NodeState<S, QC>,
        qid: QueryID,
        vs: Seq<VR>,
        post: NodeState<S, QC>,
        out: StoreReply<P, RP, V, VR, M>,
    ) -> bool {
        &&& post.cache.new_ids() == pre.cache.new_ids()
        &&& if !pre.cache.queries().contains_key(qid) {
            &&& post.store == pre.store
            &&& post.cache.queries() == pre.cache.queries()
            &&& out is NoRep
        } else {
            match pre.cache.queries()[qid].asker {
                Asker::Api(_, prio) => {
                    &&& Self::kept_by(rules, true, prio, pre.store, vs, post.store)
                    &&& Self::gathered(pre.cache.queries(), qid, vs, post.cache.queries(), out)
                },
                Asker::Node(info, owith) => {
                    &&& Self::kept_by(rules, false, 0, pre.store, vs, post.store)
                    &&& Self::passed(
                        rules,
                        pre.cache.queries(),
                        qid,
                        info,
                        owith,
                        vs,
                        post.cache.queries(),
                        out,
                    )
                },
            }
        }
    }

    /// A value to keep on this node.
    pub open spec fn store_locally_step(
        rules: DR,
        pre: NodeState<S, QC>,
        v: VR,
        prio: QueryPriority,
        oapi: Option<ApiQueryId>,
        post: NodeState<S, QC>,
        out: StoreReply<P, RP, V, VR, M>,
    ) -> bool {
        &&& Self::kept_by(rules, true, prio, pre.store, seq![v], post.store)
        &&& post.cache == pre.cache
        &&& match oapi {
            Some(api) => out matches GlobalReply::Api(KVStoreReply::Done(a)) && a == api,
            None => out is NoRep,
        }
    }

    /// A search that missed.
    ///
    /// The last one that a query waits for ends it: what was gathered is given to whoever asked.
    /// A node that gets nothing is told so if missed searches are reported to it.
    pub open spec fn not_found_step(
        rules: DR,
        pre: NodeState<S, QC>,
        qid: QueryID,
        post: NodeState<S, QC>,
        out: StoreReply<P, RP, V, VR, M>,
    ) -> bool {
        &&& post.store == pre.store
        &&& post.cache.new_ids() == pre.cache.new_ids()
        &&& if !pre.cache.queries().contains_key(qid) {
            &&& post.cache.queries() == pre.cache.queries()
            &&& out is NoRep
        } else {
            let q = pre.cache.queries()[qid];
            if !q.last_miss() {
                &&& post.cache.queries() == pre.cache.queries().insert(qid, q.miss())
                &&& out is NoRep
            } else {
                &&& post.cache.queries() == pre.cache.queries().remove(qid)
                &&& match q.asker {
                    Asker::Node(info, owith) if q.results.len() == 0 => Self::ends_empty(
                        rules,
                        owith,
                        info,
                        None,
                        out,
                    ),
                    _ => Self::answers_asker(q.asker, q.results, out),
                }
            }
        }
    }

    /// A search on this node only.
    pub open spec fn find_locally_step(
        pre: NodeState<S, QC>,
        key: V::Key,
        api: ApiQueryId,
        post: NodeState<S, QC>,
        out: StoreReply<P, RP, V, VR, M>,
    ) -> bool {
        &&& post == pre
        &&& exists|o: Option<V>, r: Option<VR>|
            answers(pre.store, key, o) && #[trigger] Self::wraps(o, r) && #[trigger] gives_one(
                out,
                api,
                r,
            )
    }

    /// The message of a search, with what is left to look for when `o` was found here.
    pub open spec fn left_to_find(msg: QueryMsg<P, M>, o: Option<V>) -> QueryMsg<P, M> {
        if o is Some {
            QueryMsg { nb_res: (msg.nb_res - 1) as usize, ..msg }
        } else {
            msg
        }
    }

    /// The search ends here, with `o`.
    pub open spec fn ends_here(
        rules: DR,
        owith: Option<RP>,
        info: M,
        oapi: Option<ApiQueryId>,
        o: Option<V>,
        out: StoreReply<P, RP, V, VR, M>,
    ) -> bool {
        match o {
            Some(v) => Self::ends_with(owith, info, oapi, v, out),
            None => Self::ends_empty(rules, owith, info, oapi, out),
        }
    }

    /// `qid` is an id under which a query of the mode `info` may go on: a new one, or its own. A
    /// new one is the only id taken from `before`, and all that is; that leaves `after`.
    pub open spec fn numbered(before: QC, info: M, qid: QueryID, after: QC) -> bool {
        exists|fresh: bool| #[trigger]
            renumbers::<P, RP, DR, M>(info, fresh) && if fresh {
                &&& before.new_ids().contains(qid)
                &&& QC::drew(before, qid, after.new_ids())
                &&& after.queries() == before.queries()
            } else {
                &&& has_query_id::<P, RP, DR, M>(info, qid)
                &&& after == before
            }
    }

    /// `h` is what becomes of `msg` on the node `me`.
    pub open spec fn hops_from(
        me: RP,
        rules: DR,
        msg: QueryMsg<P, M>,
        qid: QueryID,
        h: NextHop<P, M>,
    ) -> bool {
        exists|p: P| #[trigger] lends(me, p) && hops::<P, RP, DR, M>(msg, p, qid, rules, h)
    }

    /// `report` and `nb_not_found` are what the rules may say of missed searches for `msg`.
    pub open spec fn misses_allowed(
        rules: DR,
        msg: QueryMsg<P, M>,
        report: bool,
        nb_not_found: usize,
    ) -> bool {
        exists|m: QueryMode| #[trigger]
            has_mode::<P, RP, DR, M>(msg.mode_info, m) && rules_report(rules, m, report) && (
            if report {
                rules_threshold(rules, msg.nb_forw, msg.rem_hop, m, nb_not_found)
            } else {
                nb_not_found == 0
            })
    }

    /// `w` is how `me` may send `msg` on: under the id that the mode asks for, with the message
    /// as the mode makes it, and with what the rules say of missed searches in the new mode.
    pub open spec fn may_send_on(
        me: RP,
        rules: DR,
        before: QC,
        msg: QueryMsg<P, M>,
        w: Onward<P, M>,
        after: QC,
    ) -> bool {
        &&& Self::numbered(before, msg.mode_info, w.qid, after)
        &&& Self::hops_from(
            me,
            rules,
            msg,
            w.qid,
            NextHop { msg: w.msg, old_mode_info: w.old_mode_info },
        )
        &&& Self::misses_allowed(rules, w.msg, w.report, w.nb_not_found)
    }

    /// `q` is the record of the search `w`, asked for by `oapi` or by `owith`, with `found` from
    /// this node. Where missed searches are reported, what was found waits for the rest.
    pub open spec fn opens(
        w: Onward<P, M>,
        owith: Option<RP>,
        oapi: Option<ApiQueryId>,
        expire: Nanos,
        found: Option<VR>,
        q: Pending<M, VR, RP>,
    ) -> bool {
        &&& q.id == w.qid
        &&& match oapi {
            Some(api) => q.asker == Asker::<M, RP>::Api(api, w.msg.prio),
            None => q.asker matches Asker::Node(i, o) && cloned(w.old_mode_info, i) && cloned(
                owith,
                o,
            ),
        }
        &&& q.nb_res == w.msg.nb_res
        &&& q.results == match found {
            Some(r) if w.report => seq![r],
            _ => Seq::<VR>::empty(),
        }
        &&& q.nb_not_found == w.nb_not_found
        &&& q.expire == Some(expire)
    }

    /// `out` sends the search `w` on. Where missed searches are not reported, it also sends back
    /// at once what was found here.
    pub open spec fn sends_on(
        w: Onward<P, M>,
        owith: Option<RP>,
        key: V::Key,
        found: Option<VR>,
        out: StoreReply<P, RP, V, VR, M>,
    ) -> bool {
        match found {
            Some(r) if !w.report => {
                &&& out matches GlobalReply::Mult(outs)
                &&& outs@.len() == 2
                &&& Self::sends_back(w.old_mode_info, owith, seq![r], outs@[0])
                &&& forwards_find(outs@[1], w.msg, key)
            },
            _ => forwards_find(out, w.msg, key),
        }
    }

    /// The search goes on from here as `w` and waits until `expire`, with `o` from this node.
    pub open spec fn goes_on_until(
        before: QC,
        owith: Option<RP>,
        key: V::Key,
        oapi: Option<ApiQueryId>,
        expire: Nanos,
        o: Option<V>,
        w: Onward<P, M>,
        after: QC,
        out: StoreReply<P, RP, V, VR, M>,
    ) -> bool {
        exists|found: Option<VR>, q: Pending<M, VR, RP>|
            {
                &&& Self::wraps(o, found)
                &&& #[trigger] Self::opens(w, owith, oapi, expire, found, q)
                &&& after.queries() == before.queries().insert(w.qid, q)
                &&& after.new_ids() == before.new_ids()
                &&& Self::sends_on(w, owith, key, found, out)
            }
    }

    /// The search goes on from here as `w`, at one of `times`, with `o` from this node.
    pub open spec fn goes_on(
        rules: DR,
        before: QC,
        owith: Option<RP>,
        key: V::Key,
        oapi: Option<ApiQueryId>,
        times: Set<Nanos>,
        o: Option<V>,
        w: Onward<P, M>,
        after: QC,
        out: Result<StoreReply<P, RP, V, VR, M>, Error>,
    ) -> bool {
        exists|now: Nanos, lifetime: Nanos| #[trigger]
            times.contains(now) && #[trigger] rules_lifetime(rules, w.msg.prio, lifetime) && if now
                + lifetime > u128::MAX {
                &&& after == before
                &&& out == Err::<StoreReply<P, RP, V, VR, M>, Error>(Error::ExpireOutOfRange)
            } else {
                out matches Ok(r) && Self::goes_on_until(
                    before,
                    owith,
                    key,
                    oapi,
                    (now + lifetime) as u128,
                    o,
                    w,
                    after,
                    r,
                )
            }
    }

    /// A search for `key`, when the store answers `o`.
    ///
    /// `times` are the times at which it may go on; a search that ends here takes none.
    ///
    /// A value found here is one result less to look for. The search ends here when no hop is
    /// left or nothing is left to look for; otherwise it goes on, and is recorded.
    pub open spec fn find_with(
        me: RP,
        rules: DR,
        before: QC,
        owith: Option<RP>,
        msg: QueryMsg<P, M>,
        key: V::Key,
        oapi: Option<ApiQueryId>,
        times: Set<Nanos>,
        o: Option<V>,
        after: QC,
        out: Result<StoreReply<P, RP, V, VR, M>, Error>,
    ) -> bool {
        let left = Self::left_to_find(msg, o);
        if o is Some && msg.nb_res == 0 {
            &&& after == before
            &&& out == Err::<StoreReply<P, RP, V, VR, M>, Error>(Error::NoResultExpected)
        } else if left.rem_hop == 0 || left.nb_res == 0 {
            &&& after == before
            &&& out matches Ok(r) && Self::ends_here(rules, owith, left.mode_info, oapi, o, r)
        } else {
            exists|w: Onward<P, M>, mid: QC| #[trigger]
                Self::may_send_on(me, rules, before, left, w, mid) && Self::goes_on(
                    rules,
                    mid,
                    owith,
                    key,
                    oapi,
                    times,
                    o,
                    w,
                    after,
                    out,
                )
        }
    }

    /// A search for `key`, here and on other nodes.
    pub open spec fn find_step(
        me: RP,
        rules: DR,
        pre: NodeState<S, QC>,
        owith: Option<RP>,
        msg: QueryMsg<P, M>,
        key: V::Key,
        oapi: Option<ApiQueryId>,
        times: Set<Nanos>,
        post: NodeState<S, QC>,
        out: Result<StoreReply<P, RP, V, VR, M>, Error>,
    ) -> bool {
        &&& post.store == pre.store
        &&& exists|o: Option<V>| #[trigger]
            answers(pre.store, key, o) && Self::find_with(
                me,
                rules,
                pre.cache,
                owith,
                msg,
                key,
                oapi,
                times,
                o,
                post.cache,
                out,
            )
    }

    /// Any command, once the store is open.
    pub open spec fn step(
        me: RP,
        rules: DR,
        pre: NodeState<S, QC>,
        owith: Option<RP>,
        c: KVStoreCommand<P, V, VR, M>,
        times: Set<Nanos>,
        post: NodeState<S, QC>,
        out: Result<StoreReply<P, RP, V, VR, M>, Error>,
    ) -> bool {
        match c {
            KVStoreCommand::Start => {
                &&& post == pre
                &&& out matches Ok(r) && r is NoRep
            },
            KVStoreCommand::Store(qid, vs) => out matches Ok(r) && Self::store_step(
                rules,
                pre,
                qid,
                vs@,
                post,
                r,
            ),
            KVStoreCommand::StoreLocally(v, prio, oapi) => out matches Ok(r)
                && Self::store_locally_step(rules, pre, v, prio, oapi, post, r),
            KVStoreCommand::NotFound(qid) => out matches Ok(r) && Self::not_found_step(
                rules,
                pre,
                qid,
                post,
                r,
            ),
            KVStoreCommand::Find(msg, key, oapi) => Self::find_step(
                me,
                rules,
                pre,
                owith,
                msg,
                key,
                oapi,
                times,
                post,
                out,
            ),
            KVStoreCommand::FindLocally(key, api) => out matches Ok(r) && Self::find_locally_step(
                pre,
                key,
                api,
                post,
                r,
            ),
        }
    }
}

} // verus!
