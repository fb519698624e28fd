//! The service that keeps a node's values and looks for values on other nodes.
use crate::answer::{
    forward_find, forward_not_found, forward_one, forward_store, gives_one, StoreReply,
};
use crate::clock::Clock;
use crate::command::KVStoreCommand;
use crate::error::Error;
use crate::global::{GlobalCommand, GlobalReply};
use crate::keyval::{answers, lends, made_from, CachePolicy, KVStore, KeyVal, OpenStore, Peer, Ref};
use crate::query::{
    has_mode, has_query_id, hops, leads_to, renumbers, ApiQueryId, ModeInfo, Nanos, QReply,
    Query, QueryCache, QueryID, QueryMsg, QueryPriority,
};
use crate::reply::KVStoreReply;
use crate::rules::{rules_keep, rules_lifetime, rules_report, rules_threshold, DHTRules};
use core::marker::PhantomData;
use vstd::pervasive::unreached;
use vstd::prelude::*;

verus! {

/// The store service of a node.
///
/// It keeps values in its store, answers searches from it, sends searches on, and gathers the
/// results of the searches that it sent on.
pub struct KVStoreService<P, RP, V, RV, S, DR, QC, M, F> {
    /// This node.
    pub me: RP,
    /// Opens the store. Called by the first command, and again only after it failed.
    pub init_store: F,
    pub store: Option<S>,
    pub dht_rules: DR,
    /// The queries that wait for answers.
    pub query_cache: QC,
    pub clock: Clock,
    pub _ph: PhantomData<(P, V, RV, M)>,
}

/// What a command may change once the store is open.
pub ghost struct NodeState<S, QC> {
    pub store: S,
    pub cache: QC,
}

/// A search that is sent on, with what the mode and the rules said about it.
pub struct Onward<P: Peer, M> {
    /// The id of the search on this node.
    pub qid: QueryID,
    /// The message to send.
    pub msg: QueryMsg<P, M>,
    /// How the answer travels back from this node.
    pub old_mode_info: M,
    /// Are missed searches reported?
    pub report: bool,
    /// How many missed searches end the query.
    pub nb_not_found: usize,
}

impl<P, RP, V, VR, S, DR, QC, M, F> KVStoreService<P, RP, V, VR, S, DR, QC, M, F> where
    P: Peer,
    RP: Ref<P>,
    V: KeyVal,
    VR: Ref<V>,
    S: KVStore<V>,
    DR: DHTRules,
    QC: QueryCache<M, VR, RP>,
    M: ModeInfo<P, RP, DR>,
 {
    /// The state, once the store is open.
    pub open spec fn state(self) -> NodeState<S, QC> {
        NodeState { store: self.store->0, cache: self.query_cache }
    }

    /// The node, its rules and its clock are the same.
    pub open spec fn same_node(self, other: Self) -> bool {
        &&& self.me == other.me
        &&& self.dht_rules == other.dht_rules
        &&& self.clock == other.clock
    }

    /// Nothing differs but the store and the query cache.
    pub open spec fn same_setup(self, other: Self) -> bool {
        &&& self.same_node(other)
        &&& self.init_store == other.init_store
    }

    /// `after` and `out` are what a command may leave and give, when it is carried out at
    /// one of `times`. An open store is not opened again.
    pub open spec fn called(
        before: Self,
        req: GlobalCommand<RP, KVStoreCommand<P, V, VR, M>>,
        times: Set<Nanos>,
        after: Self,
        out: Result<StoreReply<P, RP, V, VR, M>, Error>,
    ) -> bool where F: OpenStore<S> {
        match before.store {
            Some(_) => {
                &&& after.init_store == before.init_store
                &&& after.store is Some
                &&& Self::step(
                    before.me,
                    before.dht_rules,
                    before.state(),
                    req.0,
                    req.1,
                    times,
                    after.state(),
                    out,
                )
            },
            None => Self::opened_and_called(before, req, times, after, out),
        }
    }

    /// The same, for a command that opens the store, by one call.
    pub open spec fn opened_and_called(
        before: Self,
        req: GlobalCommand<RP, KVStoreCommand<P, V, VR, M>>,
        times: Set<Nanos>,
        after: Self,
        out: Result<StoreReply<P, RP, V, VR, M>, Error>,
    ) -> bool where F: OpenStore<S> {
        exists|r: Result<S, Error>| #[trigger]
            F::opened(before.init_store, after.init_store, r) && match r {
                Ok(s) => {
                    &&& after.store is Some
                    &&& Self::step(
                        before.me,
                        before.dht_rules,
                        NodeState { store: s, cache: before.query_cache },
                        req.0,
                        req.1,
                        times,
                        after.state(),
                        out,
                    )
                },
                Err(e) => {
                    &&& after.store is None
                    &&& after.query_cache == before.query_cache
                    &&& out == Err::<StoreReply<P, RP, V, VR, M>, Error>(e)
                },
            }
    }

    /// Adds the values of `vs` to the store if `rule` says so.
    pub fn keep_as(store: &mut S, vs: &Vec<VR>, rule: (bool, Option<CachePolicy>))
        ensures
            Self::kept(*old(store), vs@, rule, *final(store)),
    {
        if rule.0 {
            let ghost start = *store;
            for v in it: vs.iter()
                invariant
                    it.seq().len() == vs@.len(),
                    forall|i: int| 0 <= i < vs@.len() ==> *(#[trigger] it.seq()[i]) == vs@[i],
                    Self::kept_all(start, vs@.take(it.index()), rule.1, *store),
            {
                let ghost mid = *store;
                let t = v.borrow();
                let w = t.clone();
                assert(lends(*v, *t) && cloned(*t, w));
                let ghost copy = w;
                store.add_val(w, rule.1);
                proof {
                    assert(Self::copy_of(*v, copy) && S::added(mid, copy, rule.1, *store));
                    let done = vs@.take(it.index() + 1);
                    assert(done.drop_last() =~= vs@.take(it.index()));
                    assert(Self::kept_one(mid, done.last(), rule.1, *store));
                }
            }
            assert(vs@.take(vs@.len() as int) =~= vs@);
        }
    }

    /// Adds the values of `vs` to the store if the rules say so.
    fn keep(rules: &DR, is_local: bool, prio: QueryPriority, store: &mut S, vs: &Vec<VR>)
        ensures
            Self::kept_by(*rules, is_local, prio, *old(store), vs@, *final(store)),
    {
        let rule = rules.do_store(is_local, prio);
        assert(rules_keep(*rules, is_local, prio, rule));
        Self::keep_as(store, vs, rule);
    }

    /// Are missed searches of the mode `info` reported?
    fn report(rules: &DR, info: &M) -> (b: bool)
        ensures
            Self::reports(*rules, *info, b),
    {
        let mode = info.get_mode();
        let b = rules.notfoundreply(&mode);
        assert(has_mode::<P, RP, DR, M>(*info, mode) && rules_report(*rules, mode, b));
        b
    }

    /// Sends `vs` back the way that `info` says.
    fn send_back(info: M, owith: &Option<RP>, vs: Vec<VR>) -> (out: StoreReply<P, RP, V, VR, M>)
        ensures
            Self::sends_back(info, *owith, vs@, out),
    {
        let ghost i = info;
        let d = info.fwd_dests(owith);
        assert(leads_to::<P, RP, DR, M>(i, *owith, d));
        forward_store(d, vs)
    }

    /// Sends `vs` back the way that a clone of `info` says.
    fn send_copy_back(info: &M, owith: &Option<RP>, vs: Vec<VR>) -> (out: StoreReply<
        P,
        RP,
        V,
        VR,
        M,
    >)
        ensures
            Self::sends_copy_back(*info, *owith, vs@, out),
    {
        let i = info.clone();
        let ghost copy = i;
        let out = Self::send_back(i, owith, vs);
        assert(cloned(*info, copy) && Self::sends_back(copy, *owith, vs@, out));
        out
    }

    /// Gives what was gathered for a query to whoever asked.
    pub fn answer_asker(query: Query<M, VR, RP>) -> (out: StoreReply<P, RP, V, VR, M>)
        ensures
            Self::answers_asker(query@.asker, query@.results, out),
    {
        match query.1 {
            QReply::Local(apiqid, _, vres, _, _) => GlobalReply::Api(
                KVStoreReply::FoundApiMult(vres, apiqid),
            ),
            QReply::Dist(old_mode_info, owith, _, vres, _) => Self::send_back(
                old_mode_info,
                &owith,
                vres,
            ),
        }
    }

    fn on_store(&mut self, qid: QueryID, vs: Vec<VR>) -> (out: StoreReply<P, RP, V, VR, M>)
        requires
            old(self).store is Some,
        ensures
            final(self).same_setup(*old(self)),
            final(self).store is Some,
            Self::store_step(
                old(self).dht_rules,
                old(self).state(),
                qid,
                vs@,
                final(self).state(),
                out,
            ),
    {
        let store = match &mut self.store {
            Some(s) => s,
            None => unreached(),
        };
        let full = match self.query_cache.query_get_mut(&qid) {
            Some(query) => {
                match &query.1 {
                    QReply::Local(_, _, _, _, qp) => {
                        Self::keep(&self.dht_rules, true, *qp, store, &vs);
                    },
                    QReply::Dist(old_mode_info, owith, _, _, _) => {
                        Self::keep(&self.dht_rules, false, 0, store, &vs);
                        if !Self::report(&self.dht_rules, old_mode_info) {
                            let out = Self::send_copy_back(old_mode_info, owith, vs);
                            assert(self.query_cache.queries() =~= old(self).query_cache.queries());
                            return out;
                        }
                    },
                }
                query.gain(vs)
            },
            None => {
                return GlobalReply::NoRep;
            },
        };
        if full {
            match self.query_cache.query_remove(&qid) {
                Some(query) => {
                    assert(self.query_cache.queries() =~= old(self).query_cache.queries().remove(
                        qid,
                    ));
                    Self::answer_asker(query)
                },
                None => unreached(),
            }
        } else {
            GlobalReply::NoRep
        }
    }

    fn on_store_locally(&mut self, v: VR, prio: QueryPriority, oapi: Option<ApiQueryId>) -> (out:
        StoreReply<P, RP, V, VR, M>)
        requires
            old(self).store is Some,
        ensures
            final(self).same_setup(*old(self)),
            final(self).store is Some,
            Self::store_locally_step(
                old(self).dht_rules,
                old(self).state(),
                v,
                prio,
                oapi,
                final(self).state(),
                out,
            ),
    {
        let store = match &mut self.store {
            Some(s) => s,
            None => unreached(),
        };
        let mut vs: Vec<VR> = Vec::new();
        vs.push(v);
        assert(vs@ =~= seq![v]);
        Self::keep(&self.dht_rules, true, prio, store, &vs);
        match oapi {
            Some(api_queryid) => GlobalReply::Api(KVStoreReply::Done(api_queryid)),
            None => GlobalReply::NoRep,
        }
    }

    fn on_not_found(&mut self, qid: QueryID) -> (out: StoreReply<P, RP, V, VR, M>)
        requires
            old(self).store is Some,
        ensures
            final(self).same_setup(*old(self)),
            final(self).store == old(self).store,
            Self::not_found_step(
                old(self).dht_rules,
                old(self).state(),
                qid,
                final(self).state(),
                out,
            ),
    {
        let last = match self.query_cache.query_get_mut(&qid) {
            Some(query) => query.miss(),
            None => {
                return GlobalReply::NoRep;
            },
        };
        if last {
            match self.query_cache.query_remove(&qid) {
                Some(query) => {
                    assert(self.query_cache.queries() =~= old(self).query_cache.queries().remove(
                        qid,
                    ));
                    match query.1 {
                        QReply::Dist(old_mode_info, owith, _, vres, _) if vres.len() == 0 => {
                            Self::end_empty(&self.dht_rules, &owith, old_mode_info, None)
                        },
                        _ => Self::answer_asker(query),
                    }
                },
                None => unreached(),
            }
        } else {
            GlobalReply::NoRep
        }
    }

    /// A reference to what the store gave.
    fn wrap(o: Option<V>) -> (r: Option<VR>)
        ensures
            Self::wraps(o, r),
    {
        match o {
            Some(v) => {
                let ghost val = v;
                let r = VR::new(v);
                assert(made_from(val, r));
                Some(r)
            },
            None => None,
        }
    }

    fn on_find_locally(&mut self, key: V::Key, api: ApiQueryId) -> (out: StoreReply<
        P,
        RP,
        V,
        VR,
        M,
    >)
        requires
            old(self).store is Some,
        ensures
            *final(self) == *old(self),
            Self::find_locally_step(old(self).state(), key, api, final(self).state(), out),
    {
        let o = match &self.store {
            Some(store) => store.get_val(&key),
            None => unreached(),
        };
        let ghost found = o;
        assert(answers(self.store->0, key, found));
        let r = Self::wrap(o);
        let out: StoreReply<P, RP, V, VR, M> = GlobalReply::Api(KVStoreReply::FoundApi(r, api));
        assert(Self::wraps(found, r) && gives_one(out, api, r));
        out
    }

    /// Gives the one result `r` to the api, or sends it back.
    pub fn answer_one(owith: &Option<RP>, info: M, oapi: Option<ApiQueryId>, r: VR) -> (out:
        StoreReply<P, RP, V, VR, M>)
        ensures
            Self::answered_one(*owith, info, oapi, r, out),
    {
        match oapi {
            Some(api_queryid) => GlobalReply::Api(KVStoreReply::FoundApi(Some(r), api_queryid)),
            None => {
                let ghost i = info;
                let d = info.fwd_dests(owith);
                assert(leads_to::<P, RP, DR, M>(i, *owith, d));
                forward_one(d, r)
            },
        }
    }

    /// Tells the api, or the node that asked, that nothing was found, if that is reported.
    pub fn answer_empty(
        owith: &Option<RP>,
        info: M,
        oapi: Option<ApiQueryId>,
        report: bool,
    ) -> (out: StoreReply<P, RP, V, VR, M>)
        ensures
            Self::answered_empty(*owith, info, oapi, report, out),
    {
        if !report {
            return GlobalReply::NoRep;
        }
        match oapi {
            Some(api_queryid) => GlobalReply::Api(KVStoreReply::FoundApi(None, api_queryid)),
            None => {
                let ghost i = info;
                let d = info.fwd_dests(owith);
                assert(leads_to::<P, RP, DR, M>(i, *owith, d));
                forward_not_found(d)
            },
        }
    }

    fn end_empty(rules: &DR, owith: &Option<RP>, info: M, oapi: Option<ApiQueryId>) -> (out:
        StoreReply<P, RP, V, VR, M>)
        ensures
            Self::ends_empty(*rules, *owith, info, oapi, out),
    {
        let report = Self::report(rules, &info);
        Self::answer_empty(owith, info, oapi, report)
    }

    /// Answers a search that ends here with `o`.
    fn end_here(
        rules: &DR,
        owith: &Option<RP>,
        info: M,
        oapi: Option<ApiQueryId>,
        o: Option<V>,
    ) -> (out: StoreReply<P, RP, V, VR, M>)
        ensures
            Self::ends_here(*rules, *owith, info, oapi, o, out),
    {
        match o {
            Some(val) => {
                let ghost v = val;
                let r = VR::new(val);
                assert(made_from(v, r));
                Self::answer_one(owith, info, oapi, r)
            },
            None => Self::end_empty(rules, owith, info, oapi),
        }
    }

    /// Asks the mode and the rules how `msg` goes on.
    fn plan(&mut self, msg: QueryMsg<P, M>) -> (w: Onward<P, M>)
        ensures
            final(self).same_setup(*old(self)),
            final(self).store == old(self).store,
            Self::may_send_on(
                old(self).me,
                old(self).dht_rules,
                old(self).query_cache,
                msg,
                w,
                final(self).query_cache,
            ),
    {
        let fresh = msg.mode_info.do_store();
        assert(renumbers::<P, RP, DR, M>(msg.mode_info, fresh));
        let qid: QueryID = if fresh {
            self.query_cache.new_id()
        } else {
            let id = msg.mode_info.get_query_id();
            assert(has_query_id::<P, RP, DR, M>(msg.mode_info, id));
            id
        };
        assert(Self::numbered(old(self).query_cache, msg.mode_info, qid, self.query_cache));
        let ghost before = msg;
        let p = self.me.borrow();
        let h = M::to_next_hop(msg, p, qid, &self.dht_rules);
        assert(lends(self.me, *p) && hops::<P, RP, DR, M>(before, *p, qid, self.dht_rules, h));
        let mode = h.msg.mode_info.get_mode();
        let report = self.dht_rules.notfoundreply(&mode);
        let nb_not_found: usize = if report {
            self.dht_rules.notfoundtreshold(h.msg.nb_forw, h.msg.rem_hop, &mode)
        } else {
            0
        };
        proof {
            assert(Self::hops_from(self.me, self.dht_rules, before, qid, h));
            assert(has_mode::<P, RP, DR, M>(h.msg.mode_info, mode));
            assert(rules_report(self.dht_rules, mode, report));
            assert(report ==> rules_threshold(
                self.dht_rules,
                h.msg.nb_forw,
                h.msg.rem_hop,
                mode,
                nb_not_found,
            ));
            assert(Self::misses_allowed(self.dht_rules, h.msg, report, nb_not_found));
        }
        Onward { qid, msg: h.msg, old_mode_info: h.old_mode_info, report, nb_not_found }
    }

    /// The record of the search `w`, and what was found here if it does not wait for the rest.
    pub fn open_query(
        w: &Onward<P, M>,
        owith: &Option<RP>,
        oapi: Option<ApiQueryId>,
        expire: Nanos,
        found: Option<VR>,
    ) -> (r: (Query<M, VR, RP>, Option<VR>))
        ensures
            Self::opens(*w, *owith, oapi, expire, found, r.0@),
            r.1 == if w.report {
                None
            } else {
                found
            },
    {
        let mut vres: Vec<VR> = Vec::new();
        let ghost whole = found;
        let rest = if w.report {
            match found {
                Some(r) => {
                    vres.push(r);
                },
                None => {},
            }
            None
        } else {
            found
        };
        assert(vres@ =~= match whole {
            Some(r) if w.report => seq![r],
            _ => Seq::<VR>::empty(),
        });
        let reply = match oapi {
            Some(apiqid) => QReply::Local(apiqid, w.msg.nb_res, vres, w.nb_not_found, w.msg.prio),
            None => QReply::Dist(
                w.old_mode_info.clone(),
                owith.clone(),
                w.msg.nb_res,
                vres,
                w.nb_not_found,
            ),
        };
        (Query(w.qid, reply, Some(expire)), rest)
    }

    /// Sends the search `w` on, and sends `rest` back at once.
    pub fn send_on(w: Onward<P, M>, owith: &Option<RP>, key: V::Key, rest: Option<VR>) -> (out:
        StoreReply<P, RP, V, VR, M>)
        requires
            w.report ==> rest is None,
        ensures
            Self::sends_on(w, *owith, key, rest, out),
    {
        match rest {
            Some(r) => {
                let ghost i = w.old_mode_info;
                let d = w.old_mode_info.fwd_dests(owith);
                assert(leads_to::<P, RP, DR, M>(i, *owith, d));
                let found: StoreReply<P, RP, V, VR, M> = forward_one(d, r);
                let pquery: StoreReply<P, RP, V, VR, M> = forward_find(w.msg, key);
                let mut outs: Vec<StoreReply<P, RP, V, VR, M>> = Vec::new();
                outs.push(found);
                outs.push(pquery);
                GlobalReply::Mult(outs)
            },
            None => forward_find(w.msg, key),
        }
    }

    /// The times at which a command may be carried out: `at`, or those that `clock` may show.
    pub open spec fn times_at(clock: Clock, at: Option<Nanos>) -> Set<Nanos> {
        match at {
            Some(now) => set![now],
            None => clock.times(),
        }
    }

    /// The time `at`, or the time that the clock shows.
    fn time(&self, at: Option<Nanos>) -> (now: Nanos)
        ensures
            Self::times_at(self.clock, at).contains(now),
    {
        match at {
            Some(now) => now,
            None => self.clock.now(),
        }
    }

    fn search(
        &mut self,
        owith: Option<RP>,
        msg: QueryMsg<P, M>,
        key: V::Key,
        oapi: Option<ApiQueryId>,
        at: Option<Nanos>,
        oval: Option<V>,
    ) -> (out: Result<StoreReply<P, RP, V, VR, M>, Error>)
        ensures
            final(self).same_setup(*old(self)),
            final(self).store == old(self).store,
            Self::find_with(
                old(self).me,
                old(self).dht_rules,
                old(self).query_cache,
                owith,
                msg,
                key,
                oapi,
                Self::times_at(old(self).clock, at),
                oval,
                final(self).query_cache,
                out,
            ),
    {
        let mut msg = msg;
        let ghost whole = msg;
        if oval.is_some() {
            if msg.nb_res == 0 {
                return Err(Error::NoResultExpected);
            }
            msg.nb_res -= 1;
        }
        let ghost left = msg;
        assert(left == Self::left_to_find(whole, oval));
        if msg.rem_hop == 0 || msg.nb_res == 0 {
            return Ok(Self::end_here(&self.dht_rules, &owith, msg.mode_info, oapi, oval));
        }
        let w = self.plan(msg);
        let ghost plan = w;
        let ghost mid = self.query_cache;
        let ghost times = Self::times_at(self.clock, at);
        let lifetime: Nanos = self.dht_rules.lifetime(w.msg.prio);
        assert(rules_lifetime(self.dht_rules, w.msg.prio, lifetime));
        let now: Nanos = self.time(at);
        if lifetime > u128::MAX - now {
            assert(Self::goes_on(
                self.dht_rules,
                mid,
                owith,
                key,
                oapi,
                times,
                oval,
                plan,
                self.query_cache,
                Err(Error::ExpireOutOfRange),
            ));
            return Err(Error::ExpireOutOfRange);
        }
        let expire: Nanos = now + lifetime;
        let ghost val = oval;
        let found = Self::wrap(oval);
        let ghost wrapped = found;
        let (query, rest) = Self::open_query(&w, &owith, oapi, expire, found);
        let ghost pending = query@;
        self.query_cache.query_add(w.qid, query);
        let out = Self::send_on(w, &owith, key, rest);
        proof {
            assert(Self::wraps(val, wrapped));
            assert(Self::opens(plan, owith, oapi, expire, wrapped, pending));
            assert(Self::sends_on(plan, owith, key, wrapped, out));
            assert(Self::goes_on_until(
                mid,
                owith,
                key,
                oapi,
                expire,
                val,
                plan,
                self.query_cache,
                out,
            ));
            assert(Self::goes_on(
                self.dht_rules,
                mid,
                owith,
                key,
                oapi,
                times,
                val,
                plan,
                self.query_cache,
                Ok(out),
            ));
        }
        Ok(out)
    }

    /// A search for `key` at the time `now` that the store answers with `oval`.
    pub fn find_from(
        &mut self,
        owith: Option<RP>,
        msg: QueryMsg<P, M>,
        key: V::Key,
        oapi: Option<ApiQueryId>,
        now: Nanos,
        oval: Option<V>,
    ) -> (out: Result<StoreReply<P, RP, V, VR, M>, Error>)
        ensures
            final(self).same_setup(*old(self)),
            final(self).store == old(self).store,
            Self::find_with(
                old(self).me,
                old(self).dht_rules,
                old(self).query_cache,
                owith,
                msg,
                key,
                oapi,
                set![now],
                oval,
                final(self).query_cache,
                out,
            ),
    {
        self.search(owith, msg, key, oapi, Some(now), oval)
    }

    fn on_find(
        &mut self,
        owith: Option<RP>,
        msg: QueryMsg<P, M>,
        key: V::Key,
        oapi: Option<ApiQueryId>,
        at: Option<Nanos>,
    ) -> (out: Result<StoreReply<P, RP, V, VR, M>, Error>)
        requires
            old(self).store is Some,
        ensures
            final(self).same_setup(*old(self)),
            final(self).store == old(self).store,
            Self::find_step(
                old(self).me,
                old(self).dht_rules,
                old(self).state(),
                owith,
                msg,
                key,
                oapi,
                Self::times_at(old(self).clock, at),
                final(self).state(),
                out,
            ),
    {
        let oval = match &self.store {
            Some(store) => store.get_val(&key),
            None => unreached(),
        };
        let ghost found = oval;
        assert(answers(old(self).state().store, key, found));
        self.search(owith, msg, key, oapi, at, oval)
    }

    /// Carries out a command once the store is open.
    fn dispatch(&mut self, owith: Option<RP>, cmd: KVStoreCommand<P, V, VR, M>, at: Option<Nanos>)
        -> (out: Result<StoreReply<P, RP, V, VR, M>, Error>)
        requires
            old(self).store is Some,
        ensures
            final(self).same_setup(*old(self)),
            final(self).store is Some,
            Self::step(
                old(self).me,
                old(self).dht_rules,
                old(self).state(),
                owith,
                cmd,
                Self::times_at(old(self).clock, at),
                final(self).state(),
                out,
            ),
    {
        match cmd {
            KVStoreCommand::Start => Ok(GlobalReply::NoRep),
            KVStoreCommand::Store(qid, vs) => Ok(self.on_store(qid, vs)),
            KVStoreCommand::StoreLocally(v, prio, oapi) => Ok(self.on_store_locally(v, prio, oapi)),
            KVStoreCommand::NotFound(qid) => Ok(self.on_not_found(qid)),
            KVStoreCommand::Find(msg, key, oapi) => self.on_find(owith, msg, key, oapi, at),
            KVStoreCommand::FindLocally(key, api) => Ok(self.on_find_locally(key, api)),
        }
    }

    fn carry_out(
        &mut self,
        req: GlobalCommand<RP, KVStoreCommand<P, V, VR, M>>,
        at: Option<Nanos>,
    ) -> (out: Result<StoreReply<P, RP, V, VR, M>, Error>) where F: OpenStore<S>
        requires
            old(self).store is None ==> old(self).init_store.can_open(),
        ensures
            final(self).same_node(*old(self)),
            Self::called(
                *old(self),
                req,
                Self::times_at(old(self).clock, at),
                *final(self),
                out,
            ),
    {
        let ghost mut r: Option<Result<S, Error>> = None;
        if self.store.is_none() {
            let opened = self.init_store.open_store();
            proof {
                r = Some(opened);
            }
            match opened {
                Ok(s) => {
                    self.store = Some(s);
                },
                Err(e) => {
                    assert(F::opened(old(self).init_store, self.init_store, r->0));
                    return Err(e);
                },
            }
        }
        let GlobalCommand(owith, cmd) = req;
        let out = self.dispatch(owith, cmd, at);
        assert(r is Some ==> F::opened(old(self).init_store, self.init_store, r->0));
        out
    }

    /// Carries out a command at the time `now`.
    ///
    /// The first command opens the store; if that fails, its error is the answer and nothing else
    /// is done. A search whose answer the machine cannot count or date is refused.
    pub fn call_at(
        &mut self,
        req: GlobalCommand<RP, KVStoreCommand<P, V, VR, M>>,
        now: Nanos,
    ) -> (out: Result<StoreReply<P, RP, V, VR, M>, Error>) where F: OpenStore<S>
        requires
            old(self).store is None ==> old(self).init_store.can_open(),
        ensures
            final(self).same_node(*old(self)),
            Self::called(*old(self), req, set![now], *final(self), out),
    {
        self.carry_out(req, Some(now))
    }

    /// Carries out a command now.
    ///
    /// The clock is read only for a search that goes on, once the store has answered and the
    /// message is ready to be sent.
    pub fn call(&mut self, req: GlobalCommand<RP, KVStoreCommand<P, V, VR, M>>) -> (out: Result<
        StoreReply<P, RP, V, VR, M>,
        Error,
    >) where F: OpenStore<S>
        requires
            old(self).store is None ==> old(self).init_store.can_open(),
        ensures
            final(self).same_node(*old(self)),
            Self::called(*old(self), req, old(self).clock.times(), *final(self), out),
    {
        self.carry_out(req, None)
    }
}

} // verus!
