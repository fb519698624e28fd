//! What comes of each command, said of the data that goes in and out.
//!
//! The laws speak of what the node's own methods returned, of the queries that wait before and
//! after, and of the answer, part by part. Where a method of the node decides, a law gives what it
//! returned.
use crate::answer::{forwards_not_found, forwards_store, gives_one, StoreReply};
use crate::command::KVStoreCommand;
use crate::error::Error;
use crate::global::{GlobalCommand, GlobalReply};
use crate::keyval::{
    answers, lends, made_from, CachePolicy, KVStore, KeyVal, OpenStore, Peer, Ref,
};
use crate::query::{
    has_mode, has_query_id, hops, leads_to, renumbers, ApiQueryId, Asker, Dests, ModeInfo, Nanos,
    NextHop, Pending, QReply, Query, QueryCache, QueryID, QueryMode, QueryMsg, QueryPriority,
};
use crate::reply::KVStoreReply;
use crate::rules::{rules_keep, rules_lifetime, rules_report, rules_threshold, DHTRules};
use crate::service::{KVStoreService, NodeState, Onward};
use vstd::pervasive::arbitrary;
use vstd::prelude::*;

verus! {

/// How values were added to a store: the states it went through, the value that each reference
/// lent, and the copy of it that was added.
pub ghost struct Additions<S, V> {
    pub stores: Seq<S>,
    pub lent: Seq<V>,
    pub copies: Seq<V>,
}

/// What the node's methods returned while results were taken in.
pub ghost struct Delivery<P: Peer, RP, V, S, M> {
    /// What the rules said about keeping them.
    pub rule: (bool, Option<CachePolicy>),
    pub additions: Additions<S, V>,
    pub mode: QueryMode,
    /// Are missed searches reported?
    pub report: bool,
    /// The mode that was asked for the way back.
    pub info: M,
    pub dests: Dests<P, RP>,
}

/// What the node's methods returned while a search was carried out.
pub ghost struct Search<P: Peer, RP, V, VR, M> {
    /// What the store holds.
    pub held: Option<V>,
    /// The reference made of it.
    pub made: VR,
    pub mode: QueryMode,
    /// Are missed searches reported?
    pub report: bool,
    pub dests: Dests<P, RP>,
    /// Does the search go on under a new id?
    pub fresh: bool,
    pub id: QueryID,
    pub me: P,
    pub hop: NextHop<P, M>,
    pub lifetime: Nanos,
    pub now: Nanos,
}

/// The values in one answer that is not made of several.
pub open spec fn values_in_part<P: Peer, RP, V: KeyVal, VR, M>(
    part: StoreReply<P, RP, V, VR, M>,
) -> Seq<VR> {
    match part {
        GlobalReply::Forward(_, _, _, KVStoreCommand::Store(_, ws)) => ws@,
        GlobalReply::Api(KVStoreReply::FoundApi(Some(r), _)) => seq![r],
        GlobalReply::Api(KVStoreReply::FoundApiMult(ws, _)) => ws@,
        _ => Seq::empty(),
    }
}

/// The values that an answer gives away, to the api or to other nodes, in order.
pub open spec fn values_in<P: Peer, RP, V: KeyVal, VR, M>(
    out: StoreReply<P, RP, V, VR, M>,
) -> Seq<VR> {
    match out {
        GlobalReply::Mult(outs) => outs@.fold_left(
            Seq::empty(),
            |vs: Seq<VR>, part: StoreReply<P, RP, V, VR, M>| vs + values_in_part(part),
        ),
        _ => values_in_part(out),
    }
}

/// The results that wait under an id.
pub open spec fn waiting<M, VR, RP>(
    queries: Map<QueryID, Pending<M, VR, RP>>,
    id: QueryID,
) -> Seq<VR> {
    if queries.contains_key(id) {
        queries[id].results
    } else {
        Seq::empty()
    }
}

impl<P, RP, V, VR, S, DR, QC, M, F> KVStoreService<P, RP, V, VR, S, DR, QC, M, F> where
    P: Peer,
    RP: Ref<P>,
    V: KeyVal,
    VR: Ref<V>,
    S: KVStore<V>,
    DR: DHTRules,
    QC: QueryCache<M, VR, RP>,
    M: ModeInfo<P, RP, DR>,
 {
    /// `a` is how a copy of the value that each of `vs` lends was added to `before`, each once and
    /// in order, and that gave `after`.
    pub open spec fn added_by(
        a: Additions<S, V>,
        before: S,
        vs: Seq<VR>,
        policy: Option<CachePolicy>,
        after: S,
    ) -> bool {
        &&& a.stores.len() == vs.len() + 1
        &&& a.lent.len() == vs.len()
        &&& a.copies.len() == vs.len()
        &&& a.stores[0] == before
        &&& a.stores[vs.len() as int] == after
        &&& forall|i: int|
            #![trigger vs[i]]
            0 <= i < vs.len() ==> {
                &&& call_ensures(<VR as Ref<V>>::borrow, (&vs[i],), &a.lent[i])
                &&& cloned(a.lent[i], a.copies[i])
                &&& S::added(a.stores[i], a.copies[i], policy, a.stores[i + 1])
            }
    }

    proof fn lemma_additions(before: S, vs: Seq<VR>, policy: Option<CachePolicy>, after: S) -> (a:
        Additions<S, V>)
        requires
            Self::kept_all(before, vs, policy, after),
        ensures
            Self::added_by(a, before, vs, policy, after),
        decreases vs.len(),
    {
        if vs.len() == 0 {
            Additions { stores: seq![after], lent: seq![], copies: seq![] }
        } else {
            let mid = choose|mid: S|
                Self::kept_all(before, vs.drop_last(), policy, mid) && #[trigger] Self::kept_one(
                    mid,
                    vs.last(),
                    policy,
                    after,
                );
            let w = choose|w: V|
                Self::copy_of(vs.last(), w) && #[trigger] S::added(mid, w, policy, after);
            let t = choose|t: V| #[trigger] lends(vs.last(), t) && cloned(t, w);
            let a = Self::lemma_additions(before, vs.drop_last(), policy, mid);
            let b = Additions {
                stores: a.stores.push(after),
                lent: a.lent.push(t),
                copies: a.copies.push(w),
            };
            assert forall|i: int|
                #![trigger vs[i]]
                0 <= i < vs.len() implies {
                &&& call_ensures(<VR as Ref<V>>::borrow, (&vs[i],), &b.lent[i])
                &&& cloned(b.lent[i], b.copies[i])
                &&& S::added(b.stores[i], b.copies[i], policy, b.stores[i + 1])
            } by {
                if i < vs.len() - 1 {
                    assert(b.copies[i] == a.copies[i]);
                    assert(vs.drop_last()[i] == vs[i]);
                }
            }
            b
        }
    }

    proof fn lemma_kept_by(
        rules: DR,
        is_local: bool,
        prio: QueryPriority,
        before: S,
        vs: Seq<VR>,
        after: S,
    ) -> (r: ((bool, Option<CachePolicy>), Additions<S, V>))
        requires
            Self::kept_by(rules, is_local, prio, before, vs, after),
        ensures
            call_ensures(DR::do_store, (&rules, is_local, prio), r.0),
            ({
                let (rule, additions) = r;
                if rule.0 {
                    Self::added_by(additions, before, vs, rule.1, after)
                } else {
                    after == before
                }
            }),
    {
        let rule = choose|a: (bool, Option<CachePolicy>)| #[trigger]
            rules_keep(rules, is_local, prio, a) && Self::kept(
                before,
                vs,
                a,
                after,
            );
        if rule.0 {
            (rule, Self::lemma_additions(before, vs, rule.1, after))
        } else {
            (rule, arbitrary())
        }
    }

    /// Start does nothing to a store that is open, and is not answered.
    pub proof fn law_start(
        before: Self,
        owith: Option<RP>,
        times: Set<Nanos>,
        after: Self,
        out: Result<StoreReply<P, RP, V, VR, M>, Error>,
    ) where F: OpenStore<S>
        requires
            Self::called(
                before,
                GlobalCommand(owith, KVStoreCommand::Start),
                times,
                after,
                out,
            ),
            before.store is Some,
        ensures
            after.store == before.store,
            after.query_cache == before.query_cache,
            out matches Ok(GlobalReply::NoRep),
    {
    }

    /// A value to keep here is added once, as a copy of what the reference lends and with the
    /// policy of the rules, if these have a local value of its priority kept. An api request is
    /// told that it is done either way.
    pub proof fn law_value_to_keep(
        before: Self,
        s: S,
        owith: Option<RP>,
        v: VR,
        prio: QueryPriority,
        oapi: Option<ApiQueryId>,
        times: Set<Nanos>,
        after: Self,
        out: Result<StoreReply<P, RP, V, VR, M>, Error>,
    ) -> (r: ((bool, Option<CachePolicy>), Additions<S, V>)) where F: OpenStore<S>
        requires
            Self::called(
                before,
                GlobalCommand(owith, KVStoreCommand::StoreLocally(v, prio, oapi)),
                times,
                after,
                out,
            ),
            before.store == Some(s),
        ensures
            call_ensures(DR::do_store, (&before.dht_rules, true, prio), r.0),
            after.store matches Some(t) && ({
                let (rule, additions) = r;
                if rule.0 {
                    Self::added_by(additions, s, seq![v], rule.1, t)
                } else {
                    t == s
                }
            }),
            after.query_cache == before.query_cache,
            match oapi {
                Some(a) => out matches Ok(GlobalReply::Api(KVStoreReply::Done(b))) && b == a,
                None => out matches Ok(GlobalReply::NoRep),
            },
    {
        Self::lemma_kept_by(before.dht_rules, true, prio, s, seq![v], after.store->0)
    }

    /// A search on this node only is answered with what the store holds, and with nothing exactly
    /// where it holds nothing.
    pub proof fn law_search_here(
        before: Self,
        s: S,
        owith: Option<RP>,
        key: V::Key,
        api: ApiQueryId,
        times: Set<Nanos>,
        after: Self,
        out: Result<StoreReply<P, RP, V, VR, M>, Error>,
    ) -> (o: Option<V>) where F: OpenStore<S>
        requires
            Self::called(
                before,
                GlobalCommand(owith, KVStoreCommand::FindLocally(key, api)),
                times,
                after,
                out,
            ),
            before.store == Some(s),
        ensures
            call_ensures(S::get_val, (&s, &key), o),
            after.store == before.store,
            after.query_cache == before.query_cache,
            out matches Ok(GlobalReply::Api(KVStoreReply::FoundApi(x, a))) && a == api && (x
                is Some <==> o is Some) && (o matches Some(v) ==> call_ensures(
                <VR as Ref<V>>::new,
                (v,),
                x->0,
            )),
    {
        let (o, r) = choose|o: Option<V>, r: Option<VR>|
            answers(s, key, o) && #[trigger] Self::wraps(o, r)
                && #[trigger] gives_one(out->Ok_0, api, r);
        o
    }

    /// Results that come in for a query that waits.
    ///
    /// They are kept as the rules say of a local value of the query's priority, or of a distant
    /// one of priority zero. Those for the api, and those for a node to which missed searches are
    /// reported, come after the results that are there: with as many as expected, the query is
    /// forgotten and whoever asked gets all of them; before and beyond, it goes on waiting.
    /// Those for another node are sent back at once and the query stays as it is. What is sent
    /// back goes to all that the mode's way back names.
    pub proof fn law_results_that_come_in(
        before: Self,
        s: S,
        owith: Option<RP>,
        qid: QueryID,
        vs: Vec<VR>,
        times: Set<Nanos>,
        after: Self,
        out: Result<StoreReply<P, RP, V, VR, M>, Error>,
    ) -> (x: Delivery<P, RP, V, S, M>) where F: OpenStore<S>
        requires
            Self::called(
                before,
                GlobalCommand(owith, KVStoreCommand::Store(qid, vs)),
                times,
                after,
                out,
            ),
            before.store == Some(s),
            before.query_cache.queries().contains_key(qid),
        ensures
            after.query_cache.new_ids() == before.query_cache.new_ids(),
            after.store matches Some(t) && if x.rule.0 {
                Self::added_by(x.additions, s, vs@, x.rule.1, t)
            } else {
                t == s
            },
            ({
                let q = before.query_cache.queries()[qid];
                let all = q.results + vs@;
                match q.asker {
                    Asker::Api(api, prio) => {
                        &&& call_ensures(DR::do_store, (&before.dht_rules, true, prio), x.rule)
                        &&& if all.len() == q.nb_res {
                            &&& after.query_cache.queries() == before.query_cache.queries().remove(
                                qid,
                            )
                            &&& out matches Ok(GlobalReply::Api(KVStoreReply::FoundApiMult(ws, a)))
                            &&& ws@ == all
                            &&& a == api
                        } else {
                            &&& after.query_cache.queries() == before.query_cache.queries().insert(
                                qid,
                                Pending { results: all, ..q },
                            )
                            &&& out matches Ok(GlobalReply::NoRep)
                        }
                    },
                    Asker::Node(info, from) => {
                        &&& call_ensures(DR::do_store, (&before.dht_rules, false, 0), x.rule)
                        &&& call_ensures(M::get_mode, (&info,), x.mode)
                        &&& call_ensures(
                            DR::notfoundreply,
                            (&before.dht_rules, &x.mode),
                            x.report,
                        )
                        &&& if x.report && all.len() != q.nb_res {
                            &&& after.query_cache.queries() == before.query_cache.queries().insert(
                                qid,
                                Pending { results: all, ..q },
                            )
                            &&& out matches Ok(GlobalReply::NoRep)
                        } else {
                            &&& after.query_cache.queries() == if x.report {
                                before.query_cache.queries().remove(qid)
                            } else {
                                before.query_cache.queries()
                            }
                            &&& if x.report {
                                x.info == info
                            } else {
                                cloned(info, x.info)
                            }
                            &&& call_ensures(M::fwd_dests, (x.info, &from), x.dests)
                            &&& out matches Ok(
                                GlobalReply::Forward(ps, ads, n, KVStoreCommand::Store(id, ws)),
                            )
                            &&& ps == x.dests.peers
                            &&& ads == x.dests.addrs
                            &&& n == 0
                            &&& id == x.dests.query
                            &&& ws@ == if x.report {
                                all
                            } else {
                                vs@
                            }
                        }
                    },
                }
            }),
    {
        let q = before.query_cache.queries()[qid];
        let (is_local, prio) = match q.asker {
            Asker::Api(_, prio) => (true, prio),
            Asker::Node(_, _) => (false, 0),
        };
        let (rule, additions) = Self::lemma_kept_by(
            before.dht_rules,
            is_local,
            prio,
            s,
            vs@,
            after.store->0,
        );
        let out = out->Ok_0;
        match q.asker {
            Asker::Api(_, _) => Delivery {
                rule,
                additions,
                mode: arbitrary(),
                report: arbitrary(),
                info: arbitrary(),
                dests: arbitrary(),
            },
            Asker::Node(info, from) => {
                let report = choose|report: bool| #[trigger]
                    Self::reports(before.dht_rules, info, report) && if report {
                        Self::gathered(
                            before.query_cache.queries(),
                            qid,
                            vs@,
                            after.query_cache.queries(),
                            out,
                        )
                    } else {
                        &&& after.query_cache.queries() == before.query_cache.queries()
                        &&& Self::sends_copy_back(info, from, vs@, out)
                    };
                let mode = choose|m: QueryMode|
                    has_mode::<P, RP, DR, M>(info, m)
                        && #[trigger] rules_report(before.dht_rules, m, report);
                let way = if report {
                    info
                } else {
                    choose|i: M|
                        cloned(info, i) && #[trigger] Self::sends_back(i, from, vs@, out)
                };
                let sent = if report {
                    q.results + vs@
                } else {
                    vs@
                };
                let dests = choose|d: Dests<P, RP>| #[trigger]
                    leads_to::<P, RP, DR, M>(way, from, d)
                        && forwards_store(out, d, sent);
                Delivery { rule, additions, mode, report, info: way, dests }
            },
        }
    }

    /// A missed search that is reported for a query that waits.
    ///
    /// It counts down the misses that the query waits for. The last one ends it: the api gets
    /// all that was gathered, also where that is nothing; a node gets it too where there is
    /// something, and is otherwise told of the miss if that is reported to it.
    pub proof fn law_miss_that_comes_in(
        before: Self,
        owith: Option<RP>,
        qid: QueryID,
        times: Set<Nanos>,
        after: Self,
        out: Result<StoreReply<P, RP, V, VR, M>, Error>,
    ) -> (x: Delivery<P, RP, V, S, M>) where F: OpenStore<S>
        requires
            Self::called(
                before,
                GlobalCommand(owith, KVStoreCommand::NotFound(qid)),
                times,
                after,
                out,
            ),
            before.store is Some,
            before.query_cache.queries().contains_key(qid),
        ensures
            after.store == before.store,
            after.query_cache.new_ids() == before.query_cache.new_ids(),
            ({
                let q = before.query_cache.queries()[qid];
                if q.nb_not_found == 0 {
                    &&& after.query_cache.queries() == before.query_cache.queries()
                    &&& out matches Ok(GlobalReply::NoRep)
                } else if q.nb_not_found > 1 {
                    &&& after.query_cache.queries() == before.query_cache.queries().insert(
                        qid,
                        Pending { nb_not_found: (q.nb_not_found - 1) as usize, ..q },
                    )
                    &&& out matches Ok(GlobalReply::NoRep)
                } else {
                    &&& after.query_cache.queries() == before.query_cache.queries().remove(qid)
                    &&& match q.asker {
                        Asker::Api(api, _) => {
                            &&& out matches Ok(GlobalReply::Api(KVStoreReply::FoundApiMult(ws, a)))
                            &&& ws@ == q.results
                            &&& a == api
                        },
                        Asker::Node(info, from) if q.results.len() > 0 => {
                            &&& call_ensures(M::fwd_dests, (info, &from), x.dests)
                            &&& out matches Ok(
                                GlobalReply::Forward(ps, ads, n, KVStoreCommand::Store(id, ws)),
                            )
                            &&& ps == x.dests.peers
                            &&& ads == x.dests.addrs
                            &&& n == 0
                            &&& id == x.dests.query
                            &&& ws@ == q.results
                        },
                        Asker::Node(info, from) => {
                            &&& call_ensures(M::get_mode, (&info,), x.mode)
                            &&& call_ensures(
                                DR::notfoundreply,
                                (&before.dht_rules, &x.mode),
                                x.report,
                            )
                            &&& if x.report {
                                &&& call_ensures(M::fwd_dests, (info, &from), x.dests)
                                &&& out matches Ok(
                                    GlobalReply::Forward(ps, ads, n, KVStoreCommand::NotFound(id)),
                                )
                                &&& ps == x.dests.peers
                                &&& ads == x.dests.addrs
                                &&& n == 0
                                &&& id == x.dests.query
                            } else {
                                out matches Ok(GlobalReply::NoRep)
                            }
                        },
                    }
                }
            }),
    {
        let q = before.query_cache.queries()[qid];
        if q.nb_not_found == 0 {
            assert(after.query_cache.queries() =~= before.query_cache.queries());
        }
        let nothing: Delivery<P, RP, V, S, M> = arbitrary();
        let out = out->Ok_0;
        match q.asker {
            Asker::Node(info, from) if q.nb_not_found == 1 && q.results.len() > 0 => {
                let dests = choose|d: Dests<P, RP>| #[trigger]
                    leads_to::<P, RP, DR, M>(info, from, d)
                        && forwards_store(out, d, q.results);
                Delivery { dests, ..nothing }
            },
            Asker::Node(info, from) if q.nb_not_found == 1 => {
                let report = choose|report: bool| #[trigger]
                    Self::reports(before.dht_rules, info, report) && Self::answered_empty(
                        from,
                        info,
                        None,
                        report,
                        out,
                    );
                let mode = choose|m: QueryMode|
                    has_mode::<P, RP, DR, M>(info, m)
                        && #[trigger] rules_report(before.dht_rules, m, report);
                let dests = choose|d: Dests<P, RP>| #[trigger]
                    leads_to::<P, RP, DR, M>(info, from, d)
                        && forwards_not_found(out, d);
                Delivery { mode, report, dests, ..nothing }
            },
            _ => nothing,
        }
    }

    /// A search for a key, here and on other nodes.
    ///
    /// A value that is held here is one result less to look for. Where no hop is left, or nothing
    /// to look for, the search ends here and is not recorded: what is held is given to the api
    /// request, or sent back the way that the message's mode leads; only where nothing is held do
    /// the rules decide whether anything is said. Otherwise the search goes on and is recorded for
    /// whoever asked. The message is the one that the mode makes of what is left to look for.
    /// What is held waits with the record if missed searches of the new mode are reported, and is
    /// sent back ahead of the message if not.
    pub proof fn law_search(
        before: Self,
        s: S,
        owith: Option<RP>,
        msg: QueryMsg<P, M>,
        key: V::Key,
        oapi: Option<ApiQueryId>,
        times: Set<Nanos>,
        after: Self,
        out: Result<StoreReply<P, RP, V, VR, M>, Error>,
    ) -> (x: Search<P, RP, V, VR, M>) where F: OpenStore<S>
        requires
            Self::called(
                before,
                GlobalCommand(owith, KVStoreCommand::Find(msg, key, oapi)),
                times,
                after,
                out,
            ),
            before.store == Some(s),
        ensures
            after.store == before.store,
            call_ensures(S::get_val, (&s, &key), x.held),
            out is Ok ==> (x.held matches Some(v) ==> call_ensures(
                <VR as Ref<V>>::new,
                (v,),
                x.made,
            )),
            ({
                let found: int = if x.held is Some {
                    1
                } else {
                    0
                };
                let left = msg.nb_res - found;
                if left < 0 {
                    &&& out matches Err(Error::NoResultExpected)
                    &&& after.query_cache == before.query_cache
                } else if msg.rem_hop == 0 || left == 0 {
                    &&& after.query_cache == before.query_cache
                    &&& if x.held is Some {
                        match oapi {
                            Some(a) => {
                                &&& out matches Ok(
                                    GlobalReply::Api(KVStoreReply::FoundApi(Some(r), b)),
                                )
                                &&& r == x.made
                                &&& b == a
                            },
                            None => {
                                &&& call_ensures(M::fwd_dests, (msg.mode_info, &owith), x.dests)
                                &&& out matches Ok(
                                    GlobalReply::Forward(ps, ads, n, KVStoreCommand::Store(id, ws)),
                                )
                                &&& ps == x.dests.peers
                                &&& ads == x.dests.addrs
                                &&& n == 0
                                &&& id == x.dests.query
                                &&& ws@ == seq![x.made]
                            },
                        }
                    } else {
                        &&& call_ensures(M::get_mode, (&msg.mode_info,), x.mode)
                        &&& call_ensures(
                            DR::notfoundreply,
                            (&before.dht_rules, &x.mode),
                            x.report,
                        )
                        &&& match oapi {
                            Some(a) if x.report => {
                                &&& out matches Ok(
                                    GlobalReply::Api(KVStoreReply::FoundApi(None, b)),
                                )
                                &&& b == a
                            },
                            None if x.report => {
                                &&& call_ensures(M::fwd_dests, (msg.mode_info, &owith), x.dests)
                                &&& out matches Ok(
                                    GlobalReply::Forward(ps, ads, n, KVStoreCommand::NotFound(id)),
                                )
                                &&& ps == x.dests.peers
                                &&& ads == x.dests.addrs
                                &&& n == 0
                                &&& id == x.dests.query
                            },
                            _ => out matches Ok(GlobalReply::NoRep),
                        }
                    }
                } else {
                    &&& call_ensures(M::do_store, (&msg.mode_info,), x.fresh)
                    &&& if x.fresh {
                        &&& before.query_cache.new_ids().contains(x.id)
                        &&& QC::drew(before.query_cache, x.id, after.query_cache.new_ids())
                    } else {
                        &&& call_ensures(M::get_query_id, (&msg.mode_info,), x.id)
                        &&& after.query_cache.new_ids() == before.query_cache.new_ids()
                    }
                    &&& call_ensures(<RP as Ref<P>>::borrow, (&before.me,), &x.me)
                    &&& call_ensures(
                        M::to_next_hop,
                        (
                            (QueryMsg { nb_res: left as usize, ..msg }),
                            &x.me,
                            x.id,
                            &before.dht_rules,
                        ),
                        x.hop,
                    )
                    &&& call_ensures(M::get_mode, (&x.hop.msg.mode_info,), x.mode)
                    &&& call_ensures(DR::notfoundreply, (&before.dht_rules, &x.mode), x.report)
                    &&& call_ensures(
                        DR::lifetime,
                        (&before.dht_rules, x.hop.msg.prio),
                        x.lifetime,
                    )
                    &&& times.contains(x.now)
                    &&& if x.now + x.lifetime > u128::MAX {
                        &&& out matches Err(Error::ExpireOutOfRange)
                        &&& after.query_cache.queries() == before.query_cache.queries()
                    } else {
                        let q = after.query_cache.queries()[x.id];
                        &&& after.query_cache.queries() == before.query_cache.queries().insert(
                            x.id,
                            q,
                        )
                        &&& q.id == x.id
                        &&& q.nb_res == x.hop.msg.nb_res
                        &&& q.expire == Some((x.now + x.lifetime) as u128)
                        &&& if x.report {
                            call_ensures(
                                DR::notfoundtreshold,
                                (
                                    &before.dht_rules,
                                    x.hop.msg.nb_forw,
                                    x.hop.msg.rem_hop,
                                    &x.mode,
                                ),
                                q.nb_not_found,
                            )
                        } else {
                            q.nb_not_found == 0
                        }
                        &&& match oapi {
                            Some(a) => q.asker == Asker::<M, RP>::Api(a, x.hop.msg.prio),
                            None => q.asker matches Asker::Node(i, o) && cloned(
                                x.hop.old_mode_info,
                                i,
                            ) && cloned(owith, o),
                        }
                        &&& q.results == if x.held is Some && x.report {
                            seq![x.made]
                        } else {
                            seq![]
                        }
                        &&& if x.held is Some && !x.report {
                            &&& call_ensures(
                                M::fwd_dests,
                                (x.hop.old_mode_info, &owith),
                                x.dests,
                            )
                            &&& out matches Ok(GlobalReply::Mult(outs))
                            &&& outs@.len() == 2
                            &&& outs@[0] matches GlobalReply::Forward(
                                ps,
                                ads,
                                n,
                                KVStoreCommand::Store(id, ws),
                            )
                            &&& ps == x.dests.peers
                            &&& ads == x.dests.addrs
                            &&& n == 0
                            &&& id == x.dests.query
                            &&& ws@ == seq![x.made]
                            &&& outs@[1] matches GlobalReply::Forward(
                                None,
                                None,
                                nb,
                                KVStoreCommand::Find(m, k, None),
                            )
                            &&& nb == x.hop.msg.nb_forw
                            &&& m == x.hop.msg
                            &&& k == key
                        } else {
                            &&& out matches Ok(
                                GlobalReply::Forward(
                                    None,
                                    None,
                                    nb,
                                    KVStoreCommand::Find(m, k, None),
                                ),
                            )
                            &&& nb == x.hop.msg.nb_forw
                            &&& m == x.hop.msg
                            &&& k == key
                        }
                    }
                }
            }),
    {
        let rules = before.dht_rules;
        let cache = before.query_cache;
        let o = choose|o: Option<V>| #[trigger]
            answers(s, key, o) && Self::find_with(
                before.me,
                rules,
                cache,
                owith,
                msg,
                key,
                oapi,
                times,
                o,
                after.query_cache,
                out,
            );
        let nothing = Search { held: o, ..arbitrary::<Search<P, RP, V, VR, M>>() };
        let left = Self::left_to_find(msg, o);
        if o is Some && msg.nb_res == 0 {
            nothing
        } else if left.rem_hop == 0 || left.nb_res == 0 {
            let r = out->Ok_0;
            match o {
                Some(v) => {
                    let made = choose|made: VR| #[trigger]
                        made_from(v, made) && Self::answered_one(
                            owith,
                            msg.mode_info,
                            oapi,
                            made,
                            r,
                        );
                    let dests = choose|d: Dests<P, RP>| #[trigger]
                        leads_to::<P, RP, DR, M>(msg.mode_info, owith, d) && forwards_store(
                            r,
                            d,
                            seq![made],
                        );
                    Search { made, dests, ..nothing }
                },
                None => {
                    let report = choose|report: bool| #[trigger]
                        Self::reports(rules, msg.mode_info, report) && Self::answered_empty(
                            owith,
                            msg.mode_info,
                            oapi,
                            report,
                            r,
                        );
                    let mode = choose|m: QueryMode|
                        has_mode::<P, RP, DR, M>(msg.mode_info, m) && #[trigger] rules_report(
                            rules,
                            m,
                            report,
                        );
                    let dests = choose|d: Dests<P, RP>| #[trigger]
                        leads_to::<P, RP, DR, M>(msg.mode_info, owith, d) && forwards_not_found(
                            r,
                            d,
                        );
                    Search { mode, report, dests, ..nothing }
                },
            }
        } else {
            let (w, mid) = choose|w: Onward<P, M>, mid: QC| #[trigger]
                Self::may_send_on(before.me, rules, cache, left, w, mid) && Self::goes_on(
                    rules,
                    mid,
                    owith,
                    key,
                    oapi,
                    times,
                    o,
                    w,
                    after.query_cache,
                    out,
                );
            let fresh = choose|fresh: bool| #[trigger]
                renumbers::<P, RP, DR, M>(msg.mode_info, fresh) && if fresh {
                    &&& cache.new_ids().contains(w.qid)
                    &&& QC::drew(cache, w.qid, mid.new_ids())
                    &&& mid.queries() == cache.queries()
                } else {
                    &&& has_query_id::<P, RP, DR, M>(msg.mode_info, w.qid)
                    &&& mid == cache
                };
            let hop = NextHop { msg: w.msg, old_mode_info: w.old_mode_info };
            let me = choose|p: P| #[trigger]
                lends(before.me, p) && hops::<P, RP, DR, M>(left, p, w.qid, rules, hop);
            let mode = choose|m: QueryMode| #[trigger]
                has_mode::<P, RP, DR, M>(w.msg.mode_info, m) && rules_report(rules, m, w.report)
                    && (if w.report {
                    rules_threshold(rules, w.msg.nb_forw, w.msg.rem_hop, m, w.nb_not_found)
                } else {
                    w.nb_not_found == 0
                });
            let (now, lifetime) = choose|now: Nanos, lifetime: Nanos| #[trigger]
                times.contains(now) && #[trigger] rules_lifetime(rules, w.msg.prio, lifetime) && if
                now + lifetime > u128::MAX {
                    &&& after.query_cache == mid
                    &&& out == Err::<StoreReply<P, RP, V, VR, M>, Error>(Error::ExpireOutOfRange)
                } else {
                    out matches Ok(r) && Self::goes_on_until(
                        mid,
                        owith,
                        key,
                        oapi,
                        (now + lifetime) as u128,
                        o,
                        w,
                        after.query_cache,
                        r,
                    )
                };
            let going = Search {
                mode,
                report: w.report,
                fresh,
                id: w.qid,
                me,
                hop,
                lifetime,
                now,
                ..nothing
            };
            assert(left == QueryMsg { nb_res: left.nb_res, ..msg });
            if now + lifetime > u128::MAX {
                going
            } else {
                let r = out->Ok_0;
                let (found, q) = choose|found: Option<VR>, q: Pending<M, VR, RP>|
                    {
                        &&& Self::wraps(o, found)
                        &&& #[trigger] Self::opens(
                            w,
                            owith,
                            oapi,
                            (now + lifetime) as u128,
                            found,
                            q,
                        )
                        &&& after.query_cache.queries() == mid.queries().insert(w.qid, q)
                        &&& after.query_cache.new_ids() == mid.new_ids()
                        &&& Self::sends_on(w, owith, key, found, r)
                    };
                assert(after.query_cache.queries()[w.qid] == q);
                match found {
                    Some(made) => {
                        let dests = choose|d: Dests<P, RP>| #[trigger]
                            leads_to::<P, RP, DR, M>(w.old_mode_info, owith, d) && forwards_store(
                                r->Mult_0@[0],
                                d,
                                seq![made],
                            );
                        Search { made, dests, ..going }
                    },
                    None => going,
                }
            }
        }
    }

    /// No result of a query that waits is lost or given twice: what waited, and what came in,
    /// goes on waiting or is given away, in order, and all of it is given away when the query is
    /// forgotten. Only results for another node may be given away ahead of what waits.
    pub proof fn law_no_result_is_lost(
        before: Self,
        owith: Option<RP>,
        c: KVStoreCommand<P, V, VR, M>,
        qid: QueryID,
        times: Set<Nanos>,
        after: Self,
        out: StoreReply<P, RP, V, VR, M>,
    ) where F: OpenStore<S>
        requires
            Self::called(before, GlobalCommand(owith, c), times, after, Ok(out)),
            before.store is Some,
            before.query_cache.queries().contains_key(qid),
            c matches KVStoreCommand::Store(q, _) ==> q == qid,
            c matches KVStoreCommand::NotFound(q) ==> q == qid,
            c is Store || c is NotFound,
        ensures
            ({
                let came = match c {
                    KVStoreCommand::Store(_, vs) => vs@,
                    _ => Seq::empty(),
                };
                let had = waiting(before.query_cache.queries(), qid);
                let has = waiting(after.query_cache.queries(), qid);
                &&& has + values_in(out) == had + came || (
                before.query_cache.queries()[qid].asker is Node && has == had && values_in(out)
                    == came)
                &&& !after.query_cache.queries().contains_key(qid) ==> values_in(out) == had + came
            }),
    {
        let s = before.store->0;
        let had = waiting(before.query_cache.queries(), qid);
        let has = waiting(after.query_cache.queries(), qid);
        match c {
            KVStoreCommand::Store(_, vs) => {
                let x = Self::law_results_that_come_in(
                    before,
                    s,
                    owith,
                    qid,
                    vs,
                    times,
                    after,
                    Ok(out),
                );
                assert(has + values_in(out) =~= had + vs@ || (has == had && values_in(out) == vs@));
            },
            _ => {
                let x = Self::law_miss_that_comes_in(before, owith, qid, times, after, Ok(out));
                assert(has + values_in(out) =~= had + Seq::<VR>::empty());
                assert(had + Seq::<VR>::empty() =~= had);
            },
        }
    }

    /// A value that is held here is not lost by a search for it, and not given twice. Where the
    /// search goes on, the reference made of the value is the one result that waits under the id
    /// of the search, or it is given away at once, and never both; where the search ends, it is
    /// given away. Nothing waits or is given away where nothing is held.
    pub proof fn law_held_value_is_not_lost(
        before: Self,
        s: S,
        owith: Option<RP>,
        msg: QueryMsg<P, M>,
        key: V::Key,
        oapi: Option<ApiQueryId>,
        times: Set<Nanos>,
        after: Self,
        out: StoreReply<P, RP, V, VR, M>,
    ) -> (x: Search<P, RP, V, VR, M>) where F: OpenStore<S>
        requires
            Self::called(
                before,
                GlobalCommand(owith, KVStoreCommand::Find(msg, key, oapi)),
                times,
                after,
                Ok(out),
            ),
            before.store == Some(s),
        ensures
            call_ensures(S::get_val, (&s, &key), x.held),
            x.held matches Some(v) ==> call_ensures(<VR as Ref<V>>::new, (v,), x.made),
            ({
                let held = if x.held is Some {
                    seq![x.made]
                } else {
                    Seq::empty()
                };
                let goes_on = out is Mult || (out matches GlobalReply::Forward(_, _, _, c) && c
                    is Find);
                if goes_on {
                    &&& after.query_cache.queries().contains_key(x.id)
                    &&& waiting(after.query_cache.queries(), x.id) + values_in(out) == held
                } else {
                    &&& after.query_cache == before.query_cache
                    &&& values_in(out) == held
                }
            }),
    {
        let x = Self::law_search(before, s, owith, msg, key, oapi, times, after, Ok(out));
        if let GlobalReply::Mult(outs) = out {
            let none = Seq::<VR>::empty();
            reveal_with_fuel(Seq::fold_left, 3);
            assert(outs@.drop_last().drop_last() =~= Seq::empty());
            assert(outs@.drop_last().last() == outs@[0]);
            assert(none + values_in_part(outs@[0]) + values_in_part(outs@[1]) =~= seq![x.made]);
        }
        assert(values_in(out) =~= Seq::<VR>::empty() || values_in(out) =~= seq![x.made]);
        assert(waiting(after.query_cache.queries(), x.id) + Seq::<VR>::empty() =~= waiting(
            after.query_cache.queries(),
            x.id,
        ));
        assert(Seq::<VR>::empty() + values_in(out) =~= values_in(out));
        x
    }

    /// A search that ends on a node which holds the value is answered with it, whatever the rules
    /// say about missed searches: to the api request, or else along the way back that the mode
    /// names.
    pub proof fn law_held_value_is_given(
        before: Self,
        s: S,
        owith: Option<RP>,
        msg: QueryMsg<P, M>,
        key: V::Key,
        oapi: Option<ApiQueryId>,
        times: Set<Nanos>,
        v: V,
        after: Self,
        out: Result<StoreReply<P, RP, V, VR, M>, Error>,
    ) -> (r: VR) where F: OpenStore<S>
        requires
            Self::called(
                before,
                GlobalCommand(owith, KVStoreCommand::Find(msg, key, oapi)),
                times,
                after,
                out,
            ),
            before.store == Some(s),
            forall|o: Option<V>| #[trigger]
                call_ensures(S::get_val, (&s, &key), o) ==> o == Some(v),
            msg.nb_res == 1 || (msg.nb_res > 1 && msg.rem_hop == 0),
        ensures
            call_ensures(<VR as Ref<V>>::new, (v,), r),
            match oapi {
                Some(a) => out matches Ok(GlobalReply::Api(KVStoreReply::FoundApi(Some(w), b))) && w
                    == r && b == a,
                None => out matches Ok(
                    GlobalReply::Forward(ps, ads, 0, KVStoreCommand::Store(id, ws)),
                ) && ws@ == seq![r] && call_ensures(
                    M::fwd_dests,
                    (msg.mode_info, &owith),
                    (Dests { peers: ps, addrs: ads, query: id }),
                ),
            },
    {
        let x = Self::law_search(before, s, owith, msg, key, oapi, times, after, out);
        assert(x.held == Some(v));
        assert(oapi is None ==> x.dests == Dests::<P, RP> {
            peers: x.dests.peers,
            addrs: x.dests.addrs,
            query: x.dests.query,
        });
        x.made
    }

    /// What is sent back for a query that waits goes to the peers and to the addresses that the
    /// way back names, all of them and no others, and under the id that it names.
    pub proof fn law_answers_go_where_the_mode_leads(
        before: Self,
        owith: Option<RP>,
        c: KVStoreCommand<P, V, VR, M>,
        qid: QueryID,
        info: M,
        from: Option<RP>,
        d: Dests<P, RP>,
        times: Set<Nanos>,
        after: Self,
        out: Result<StoreReply<P, RP, V, VR, M>, Error>,
    ) where F: OpenStore<S>
        requires
            Self::called(before, GlobalCommand(owith, c), times, after, out),
            before.store is Some,
            before.query_cache.queries().contains_key(qid),
            before.query_cache.queries()[qid].asker == Asker::Node(info, from),
            forall|i: M, e: Dests<P, RP>| #[trigger]
                call_ensures(M::fwd_dests, (i, &from), e) && (i == info || cloned(info, i)) ==> e
                    == d,
            c matches KVStoreCommand::Store(q, _) ==> q == qid,
            c matches KVStoreCommand::NotFound(q) ==> q == qid,
            c is Store || c is NotFound,
        ensures
            match out {
                Ok(GlobalReply::NoRep) => true,
                Ok(GlobalReply::Forward(ps, ads, n, KVStoreCommand::Store(id, _))) => ps == d.peers
                    && ads == d.addrs && n == 0 && id == d.query,
                Ok(GlobalReply::Forward(ps, ads, n, KVStoreCommand::NotFound(id))) => ps == d.peers
                    && ads == d.addrs && n == 0 && id == d.query,
                _ => false,
            },
    {
        let s = before.store->0;
        match c {
            KVStoreCommand::Store(_, vs) => {
                let x = Self::law_results_that_come_in(
                    before,
                    s,
                    owith,
                    qid,
                    vs,
                    times,
                    after,
                    out,
                );
            },
            _ => {
                let x = Self::law_miss_that_comes_in(before, owith, qid, times, after, out);
            },
        }
    }

    /// The api query that ends gets all that was gathered for it, be it nothing, as the several
    /// results of a search.
    pub proof fn law_api_gets_what_was_gathered(
        before: Self,
        owith: Option<RP>,
        c: KVStoreCommand<P, V, VR, M>,
        qid: QueryID,
        api: ApiQueryId,
        prio: QueryPriority,
        times: Set<Nanos>,
        after: Self,
        out: Result<StoreReply<P, RP, V, VR, M>, Error>,
    ) where F: OpenStore<S>
        requires
            Self::called(before, GlobalCommand(owith, c), times, after, out),
            before.store is Some,
            before.query_cache.queries().contains_key(qid),
            before.query_cache.queries()[qid].asker == Asker::<M, RP>::Api(api, prio),
            !after.query_cache.queries().contains_key(qid),
        ensures
            out matches Ok(GlobalReply::Api(KVStoreReply::FoundApiMult(ws, a))) && a == api && ws@
                == before.query_cache.queries()[qid].results + match c {
                KVStoreCommand::Store(_, vs) => vs@,
                _ => Seq::empty(),
            },
    {
        let s = before.store->0;
        let had = before.query_cache.queries()[qid].results;
        match c {
            KVStoreCommand::Store(q, vs) => {
                if before.query_cache.queries().contains_key(q) {
                    let x = Self::law_results_that_come_in(
                        before,
                        s,
                        owith,
                        q,
                        vs,
                        times,
                        after,
                        out,
                    );
                }
            },
            KVStoreCommand::NotFound(q) => {
                if before.query_cache.queries().contains_key(q) {
                    let x = Self::law_miss_that_comes_in(before, owith, q, times, after, out);
                    assert(had + Seq::<VR>::empty() =~= had);
                }
            },
            KVStoreCommand::Find(msg, key, oapi) => {
                let x = Self::law_search(before, s, owith, msg, key, oapi, times, after, out);
            },
            _ => {},
        }
    }

    /// Each kind of answer to the api has its commands: a value that was stored is acknowledged,
    /// a search that ends here has one result or none, and a query that waited has several.
    /// No command is answered for the store of peers.
    pub proof fn law_kinds_of_answers(
        before: Self,
        owith: Option<RP>,
        c: KVStoreCommand<P, V, VR, M>,
        times: Set<Nanos>,
        after: Self,
        out: StoreReply<P, RP, V, VR, M>,
    ) where F: OpenStore<S>
        requires
            Self::called(before, GlobalCommand(owith, c), times, after, Ok(out)),
            before.store is Some,
        ensures
            match out {
                GlobalReply::Api(KVStoreReply::Done(a)) => c matches KVStoreCommand::StoreLocally(
                    _,
                    _,
                    oapi,
                ) && oapi == Some(a),
                GlobalReply::Api(KVStoreReply::FoundApi(_, a)) => match c {
                    KVStoreCommand::Find(_, _, oapi) => oapi == Some(a),
                    KVStoreCommand::FindLocally(_, b) => a == b,
                    _ => false,
                },
                GlobalReply::Api(KVStoreReply::FoundApiMult(_, _)) => c is Store || c is NotFound,
                GlobalReply::Forward(_, _, _, KVStoreCommand::Store(_, _)) => c is Store || c
                    is NotFound || c is Find,
                GlobalReply::Forward(_, _, _, KVStoreCommand::NotFound(_)) => c is NotFound || c
                    is Find,
                GlobalReply::Forward(_, _, _, KVStoreCommand::Find(_, _, None)) => c is Find,
                GlobalReply::Mult(_) => c is Find,
                GlobalReply::NoRep => c !is FindLocally,
                _ => false,
            },
    {
        let s = before.store->0;
        match c {
            KVStoreCommand::Store(q, vs) => {
                if before.query_cache.queries().contains_key(q) {
                    let x = Self::law_results_that_come_in(
                        before,
                        s,
                        owith,
                        q,
                        vs,
                        times,
                        after,
                        Ok(out),
                    );
                }
            },
            KVStoreCommand::NotFound(q) => {
                if before.query_cache.queries().contains_key(q) {
                    let x = Self::law_miss_that_comes_in(before, owith, q, times, after, Ok(out));
                }
            },
            KVStoreCommand::Find(msg, key, oapi) => {
                let x = Self::law_search(before, s, owith, msg, key, oapi, times, after, Ok(out));
            },
            _ => {},
        }
    }

    /// A command that opens the store does to it, and answers, what it would have with the store
    /// already open.
    pub proof fn law_opening_comes_first(
        before: Self,
        req: GlobalCommand<RP, KVStoreCommand<P, V, VR, M>>,
        times: Set<Nanos>,
        after: Self,
        out: Result<StoreReply<P, RP, V, VR, M>, Error>,
    ) -> (r: Result<S, Error>) where F: OpenStore<S>
        requires
            Self::called(before, req, times, after, out),
            before.store is None,
        ensures
            F::opened(before.init_store, after.init_store, r),
            match r {
                Ok(s) => after.store is Some && Self::called(
                    (KVStoreService { store: Some(s), init_store: after.init_store, ..before }),
                    req,
                    times,
                    after,
                    out,
                ),
                Err(e) => after.store is None && after.query_cache == before.query_cache && (
                out matches Err(f) && f == e),
            },
    {
        choose|r: Result<S, Error>| #[trigger]
            F::opened(before.init_store, after.init_store, r) && match r {
                Ok(s) => {
                    &&& after.store is Some
                    &&& Self::step(
                        before.me,
                        before.dht_rules,
                        NodeState { store: s, cache: before.query_cache },
                        req.0,
                        req.1,
                        times,
                        after.state(),
                        out,
                    )
                },
                Err(e) => {
                    &&& after.store is None
                    &&& after.query_cache == before.query_cache
                    &&& out == Err::<StoreReply<P, RP, V, VR, M>, Error>(e)
                },
            }
    }

    /// What is carried out, at a given time or at a time that the clock shows, keeps the node, its
    /// rules and its clock, and leaves what opens the store alone once it is open.
    pub proof fn law_call(
        s: &mut Self,
        t: &mut Self,
        req: GlobalCommand<RP, KVStoreCommand<P, V, VR, M>>,
        now: Nanos,
        out: Result<StoreReply<P, RP, V, VR, M>, Error>,
        dated: Result<StoreReply<P, RP, V, VR, M>, Error>,
    ) where F: OpenStore<S>
        requires
            call_ensures(Self::call, (s, req), out),
            call_ensures(Self::call_at, (t, req, now), dated),
        ensures
            Self::called(
                *old(s),
                req,
                Set::new(|n: Nanos| old(s).clock.shows(n)),
                *final(s),
                out,
            ),
            Self::called(*old(t), req, set![now], *final(t), dated),
            final(s).me == old(s).me && final(s).dht_rules == old(s).dht_rules,
            final(t).me == old(t).me && final(t).dht_rules == old(t).dht_rules,
            final(s).clock == old(s).clock && final(t).clock == old(t).clock,
            old(s).store is Some ==> final(s).init_store == old(s).init_store && final(s).store
                is Some,
            old(t).store is Some ==> final(t).init_store == old(t).init_store && final(t).store
                is Some,
    {
    }

    proof fn lemma_find_step(
        me: RP,
        rules: DR,
        pre: NodeState<S, QC>,
        owith: Option<RP>,
        msg: QueryMsg<P, M>,
        key: V::Key,
        oapi: Option<ApiQueryId>,
        times: Set<Nanos>,
        o: Option<V>,
        post: NodeState<S, QC>,
        out: Result<StoreReply<P, RP, V, VR, M>, Error>,
    )
        requires
            answers(pre.store, key, o),
            post.store == pre.store,
            Self::find_with(
                me,
                rules,
                pre.cache,
                owith,
                msg,
                key,
                oapi,
                times,
                o,
                post.cache,
                out,
            ),
        ensures
            Self::find_step(me, rules, pre, owith, msg, key, oapi, times, post, out),
    {
    }

    /// A search for which the store's answer is given is the search in which the store gives it.
    pub proof fn law_find_from(
        s: &mut Self,
        owith: Option<RP>,
        msg: QueryMsg<P, M>,
        key: V::Key,
        oapi: Option<ApiQueryId>,
        now: Nanos,
        o: Option<V>,
        out: Result<StoreReply<P, RP, V, VR, M>, Error>,
    ) where F: OpenStore<S>
        requires
            call_ensures(Self::find_from, (s, owith, msg, key, oapi, now, o), out),
            old(s).store matches Some(store) && call_ensures(S::get_val, (&store, &key), o),
        ensures
            Self::called(
                *old(s),
                GlobalCommand(owith, KVStoreCommand::Find(msg, key, oapi)),
                set![now],
                *final(s),
                out,
            ),
            final(s).me == old(s).me,
            final(s).dht_rules == old(s).dht_rules,
            final(s).clock == old(s).clock,
            final(s).init_store == old(s).init_store,
            final(s).store == old(s).store,
    {
        Self::lemma_find_step(
            old(s).me,
            old(s).dht_rules,
            old(s).state(),
            owith,
            msg,
            key,
            oapi,
            set![now],
            o,
            final(s).state(),
            out,
        );
    }

    /// Values are added each once and in order, with the policy of the rule, if it says so; if
    /// not, the store stays as it is.
    pub proof fn law_keep_as(s: &mut S, vs: Vec<VR>, rule: (bool, Option<CachePolicy>))
        requires
            call_ensures(Self::keep_as, (s, &vs, rule), ()),
        ensures
            if rule.0 {
                exists|a: Additions<S, V>| #[trigger]
                    Self::added_by(a, *old(s), vs@, rule.1, *final(s))
            } else {
                *final(s) == *old(s)
            },
    {
        if rule.0 {
            let a = Self::lemma_additions(*old(s), vs@, rule.1, *final(s));
        }
    }

    /// The api gets what was gathered under its own id; a node gets it along its own way back.
    pub proof fn law_answer_asker(query: Query<M, VR, RP>, out: StoreReply<P, RP, V, VR, M>)
        requires
            call_ensures(Self::answer_asker, (query,), out),
        ensures
            match query.1 {
                QReply::Local(api, _, vs, _, _) => out matches GlobalReply::Api(
                    KVStoreReply::FoundApiMult(ws, a),
                ) && ws@ == vs@ && a == api,
                QReply::Dist(info, from, _, vs, _) => out matches GlobalReply::Forward(
                    ps,
                    ads,
                    0,
                    KVStoreCommand::Store(id, ws),
                ) && ws@ == vs@ && call_ensures(
                    M::fwd_dests,
                    (info, &from),
                    (Dests { peers: ps, addrs: ads, query: id }),
                ),
            },
    {
        if let QReply::Dist(info, from, _, vs, _) = query.1 {
            let d = choose|d: Dests<P, RP>| #[trigger]
                leads_to::<P, RP, DR, M>(info, from, d) && forwards_store(out, d, vs@);
            assert(d == Dests::<P, RP> { peers: d.peers, addrs: d.addrs, query: d.query });
        }
    }

    /// One result is given to the api as such, or along the way back; a search without one is
    /// answered in the same way if that is reported, and not at all if it is not.
    pub proof fn law_answer_one_or_none(
        owith: Option<RP>,
        info: M,
        oapi: Option<ApiQueryId>,
        r: VR,
        report: bool,
        one: StoreReply<P, RP, V, VR, M>,
        none: StoreReply<P, RP, V, VR, M>,
    )
        requires
            call_ensures(Self::answer_one, (&owith, info, oapi, r), one),
            call_ensures(Self::answer_empty, (&owith, info, oapi, report), none),
        ensures
            match oapi {
                Some(a) => one matches GlobalReply::Api(KVStoreReply::FoundApi(Some(w), b)) && w
                    == r && b == a,
                None => one matches GlobalReply::Forward(ps, ads, 0, KVStoreCommand::Store(id, ws))
                    && ws@ == seq![r] && call_ensures(
                    M::fwd_dests,
                    (info, &owith),
                    (Dests { peers: ps, addrs: ads, query: id }),
                ),
            },
            !report ==> none is NoRep,
            report ==> match oapi {
                Some(a) => none matches GlobalReply::Api(KVStoreReply::FoundApi(None, b)) && b == a,
                None => none matches GlobalReply::Forward(ps, ads, 0, KVStoreCommand::NotFound(id))
                    && call_ensures(
                    M::fwd_dests,
                    (info, &owith),
                    (Dests { peers: ps, addrs: ads, query: id }),
                ),
            },
    {
        if oapi is None {
            let d = choose|d: Dests<P, RP>| #[trigger]
                leads_to::<P, RP, DR, M>(info, owith, d) && forwards_store(one, d, seq![r]);
            assert(d == Dests::<P, RP> { peers: d.peers, addrs: d.addrs, query: d.query });
            if report {
                let e = choose|e: Dests<P, RP>| #[trigger]
                    leads_to::<P, RP, DR, M>(info, owith, e) && forwards_not_found(none, e);
                assert(e == Dests::<P, RP> { peers: e.peers, addrs: e.addrs, query: e.query });
            }
        }
    }

    /// The record of a search holds what the message says is expected, what the rules said of
    /// misses, and whoever asked. What was found is in the record or is handed back, whoever
    /// asked: both together are what was found.
    pub proof fn law_open_query(
        w: Onward<P, M>,
        owith: Option<RP>,
        oapi: Option<ApiQueryId>,
        expire: Nanos,
        found: Option<VR>,
        query: Query<M, VR, RP>,
        rest: Option<VR>,
    )
        requires
            call_ensures(Self::open_query, (&w, &owith, oapi, expire, found), (query, rest)),
        ensures
            query.0 == w.qid,
            query.2 == Some(expire),
            w.report ==> rest is None,
            !w.report ==> rest == found,
            match (query.1, oapi) {
                (QReply::Local(a, n, vs, misses, prio), Some(api)) => a == api && prio == w.msg.prio
                    && n == w.msg.nb_res && misses == w.nb_not_found && match (found, rest) {
                    (Some(r), None) => vs@ == seq![r],
                    _ => vs@.len() == 0,
                },
                (QReply::Dist(i, from, n, vs, misses), None) => cloned(w.old_mode_info, i)
                    && cloned(owith, from) && n == w.msg.nb_res && misses == w.nb_not_found
                    && match (found, rest) {
                    (Some(r), None) => vs@ == seq![r],
                    _ => vs@.len() == 0,
                },
                _ => false,
            },
    {
    }

    /// What is sent back at once goes ahead of the search, along the way that the search came
    /// in; the search itself goes to as many nodes as its message says and to none by name, and
    /// answers no api request.
    pub proof fn law_send_on(
        w: Onward<P, M>,
        owith: Option<RP>,
        key: V::Key,
        rest: Option<VR>,
        out: StoreReply<P, RP, V, VR, M>,
    )
        requires
            w.report ==> rest is None,
            call_ensures(Self::send_on, (w, &owith, key, rest), out),
        ensures
            ({
                let search = match out {
                    GlobalReply::Mult(outs) => outs@[1],
                    _ => out,
                };
                &&& search matches GlobalReply::Forward(
                    None,
                    None,
                    nb,
                    KVStoreCommand::Find(m, k, None),
                )
                &&& nb == w.msg.nb_forw
                &&& m == w.msg
                &&& k == key
            }),
            match rest {
                Some(r) => out matches GlobalReply::Mult(outs) && outs@.len() == 2 && (
                outs@[0] matches GlobalReply::Forward(ps, ads, 0, KVStoreCommand::Store(id, ws))
                    && ws@ == seq![r] && call_ensures(
                    M::fwd_dests,
                    (w.old_mode_info, &owith),
                    (Dests { peers: ps, addrs: ads, query: id }),
                )),
                None => out !is Mult,
            },
    {
        if let Some(r) = rest {
            let d = choose|d: Dests<P, RP>| #[trigger]
                leads_to::<P, RP, DR, M>(w.old_mode_info, owith, d) && forwards_store(
                    out->Mult_0@[0],
                    d,
                    seq![r],
                );
            assert(d == Dests::<P, RP> { peers: d.peers, addrs: d.addrs, query: d.query });
        }
    }
}

} // verus!
