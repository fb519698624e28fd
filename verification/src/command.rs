//! The commands that the store service takes, and the form in which they cross threads.
use crate::keyval::{
    all_ref_of, all_sendable_of, get_sendables, ref_of, sendable_of, to_refs, KeyVal, Peer, Ref,
    SRef, SToRef,
};
use crate::query::{ApiQueryId, QueryID, QueryMsg, QueryPriority};
use vstd::prelude::*;

verus! {

/// A command for the store service.
pub enum KVStoreCommand<P: Peer, V: KeyVal, VR, M> {
    /// Nothing but the initialization of the store, which any command does.
    Start,
    /// Look for a key, here and on other nodes.
    Find(QueryMsg<P, M>, V::Key, Option<ApiQueryId>),
    /// Look for a key on this node only.
    FindLocally(V::Key, ApiQueryId),
    /// Results for a query.
    Store(QueryID, Vec<VR>),
    /// A search for a query missed.
    NotFound(QueryID),
    /// Keep a value on this node.
    StoreLocally(VR, QueryPriority, Option<ApiQueryId>),
}

impl<P: Peer, V: KeyVal, VR, M> KVStoreCommand<P, V, VR, M> {
    /// The command can be answered through the api.
    pub open spec fn api_repliable(self) -> bool {
        self is Find || self is FindLocally || self is StoreLocally
    }

    /// The api request to answer, if there is one.
    pub open spec fn api_id(self) -> Option<ApiQueryId> {
        match self {
            KVStoreCommand::Find(_, _, oaqid) => oaqid,
            KVStoreCommand::FindLocally(_, aqid) => Some(aqid),
            KVStoreCommand::StoreLocally(_, _, oaqid) => oaqid,
            _ => None,
        }
    }

    /// The command as an answer to the api request `i`, where it can be one.
    pub open spec fn with_api_id(self, i: ApiQueryId) -> Self {
        match self {
            KVStoreCommand::Find(qm, k, _) => KVStoreCommand::Find(qm, k, Some(i)),
            KVStoreCommand::FindLocally(k, _) => KVStoreCommand::FindLocally(k, i),
            KVStoreCommand::StoreLocally(v, qp, _) => KVStoreCommand::StoreLocally(v, qp, Some(i)),
            _ => self,
        }
    }

    pub fn is_api_reply(&self) -> (r: bool)
        ensures
            r == self.api_repliable(),
    {
        match self {
            KVStoreCommand::Start => false,
            KVStoreCommand::Find(_, _, _) => true,
            KVStoreCommand::FindLocally(_, _) => true,
            KVStoreCommand::Store(_, _) => false,
            KVStoreCommand::NotFound(_) => false,
            KVStoreCommand::StoreLocally(_, _, _) => true,
        }
    }

    pub fn set_api_reply(&mut self, i: ApiQueryId)
        ensures
            *final(self) == old(self).with_api_id(i),
    {
        match self {
            KVStoreCommand::Start => {},
            KVStoreCommand::StoreLocally(_, _, oaqid) => {
                *oaqid = Some(i);
            },
            KVStoreCommand::Find(_, _, oaqid) => {
                *oaqid = Some(i);
            },
            KVStoreCommand::FindLocally(_, aqid) => {
                *aqid = i;
            },
            KVStoreCommand::Store(_, _) => {},
            KVStoreCommand::NotFound(_) => {},
        }
    }

    pub fn get_api_reply(&self) -> (r: Option<ApiQueryId>)
        ensures
            r == self.api_id(),
    {
        match self {
            KVStoreCommand::Start => None,
            KVStoreCommand::StoreLocally(_, _, oaqid) => *oaqid,
            KVStoreCommand::Find(_, _, oaqid) => *oaqid,
            KVStoreCommand::FindLocally(_, aqid) => Some(*aqid),
            KVStoreCommand::Store(_, _) => None,
            KVStoreCommand::NotFound(_) => None,
        }
    }
}

/// `r` is `c` with each part cloned.
pub open spec fn command_cloned<P: Peer, V: KeyVal, VR: Clone, M: Clone>(
    c: KVStoreCommand<P, V, VR, M>,
    r: KVStoreCommand<P, V, VR, M>,
) -> bool {
    match (c, r) {
        (KVStoreCommand::Start, KVStoreCommand::Start) => true,
        (KVStoreCommand::Find(qm, k, a), KVStoreCommand::Find(rqm, rk, ra)) => {
            &&& cloned(qm, rqm)
            &&& cloned(k, rk)
            &&& a == ra
        },
        (KVStoreCommand::FindLocally(k, a), KVStoreCommand::FindLocally(rk, ra)) => {
            &&& cloned(k, rk)
            &&& a == ra
        },
        (KVStoreCommand::Store(q, vs), KVStoreCommand::Store(rq, rvs)) => {
            &&& q == rq
            &&& cloned(vs, rvs)
        },
        (KVStoreCommand::NotFound(q), KVStoreCommand::NotFound(rq)) => q == rq,
        (KVStoreCommand::StoreLocally(v, p, a), KVStoreCommand::StoreLocally(rv, rp, ra)) => {
            &&& cloned(v, rv)
            &&& p == rp
            &&& a == ra
        },
        _ => false,
    }
}

impl<P: Peer, V: KeyVal, VR: Clone, M: Clone> Clone for KVStoreCommand<P, V, VR, M> {
    fn clone(&self) -> (r: Self)
        ensures
            command_cloned(*self, r),
    {
        match self {
            KVStoreCommand::Start => KVStoreCommand::Start,
            KVStoreCommand::Find(qm, k, oaqid) => KVStoreCommand::Find(
                qm.clone(),
                k.clone(),
                *oaqid,
            ),
            KVStoreCommand::FindLocally(k, aqid) => KVStoreCommand::FindLocally(k.clone(), *aqid),
            KVStoreCommand::Store(qid, vrs) => KVStoreCommand::Store(*qid, vrs.clone()),
            KVStoreCommand::NotFound(qid) => KVStoreCommand::NotFound(*qid),
            KVStoreCommand::StoreLocally(v, qp, oaqid) => KVStoreCommand::StoreLocally(
                v.clone(),
                *qp,
                *oaqid,
            ),
        }
    }
}

/// A command in the form that crosses threads.
pub enum KVStoreCommandSend<P: Peer, V: KeyVal, VR: SRef, M> {
    Start,
    Find(QueryMsg<P, M>, V::Key, Option<ApiQueryId>),
    FindLocally(V::Key, ApiQueryId),
    Store(QueryID, Vec<<VR as SRef>::Send>),
    NotFound(QueryID),
    StoreLocally(<VR as SRef>::Send, QueryPriority, Option<ApiQueryId>),
}

/// `s` is `c` with its message and key cloned and its references in sendable form.
pub open spec fn command_sendable_of<P: Peer, V: KeyVal, VR: SRef, M: Clone>(
    c: KVStoreCommand<P, V, VR, M>,
    s: KVStoreCommandSend<P, V, VR, M>,
) -> bool {
    match (c, s) {
        (KVStoreCommand::Start, KVStoreCommandSend::Start) => true,
        (KVStoreCommand::Find(qm, k, a), KVStoreCommandSend::Find(sqm, sk, sa)) => {
            &&& cloned(qm, sqm)
            &&& cloned(k, sk)
            &&& a == sa
        },
        (KVStoreCommand::FindLocally(k, a), KVStoreCommandSend::FindLocally(sk, sa)) => {
            &&& cloned(k, sk)
            &&& a == sa
        },
        (KVStoreCommand::Store(q, vs), KVStoreCommandSend::Store(sq, svs)) => {
            &&& q == sq
            &&& all_sendable_of(vs@, svs@)
        },
        (KVStoreCommand::NotFound(q), KVStoreCommandSend::NotFound(sq)) => q == sq,
        (KVStoreCommand::StoreLocally(v, p, a), KVStoreCommandSend::StoreLocally(sv, sp, sa)) => {
            &&& sendable_of(v, sv)
            &&& p == sp
            &&& a == sa
        },
        _ => false,
    }
}

/// `c` is `s` with the references that its sendable forms give back.
pub open spec fn command_ref_of<P: Peer, V: KeyVal, VR: SRef, M>(
    s: KVStoreCommandSend<P, V, VR, M>,
    c: KVStoreCommand<P, V, VR, M>,
) -> bool {
    match (s, c) {
        (KVStoreCommandSend::Start, KVStoreCommand::Start) => true,
        (KVStoreCommandSend::Find(sqm, sk, sa), KVStoreCommand::Find(qm, k, a)) => {
            &&& qm == sqm
            &&& k == sk
            &&& a == sa
        },
        (KVStoreCommandSend::FindLocally(sk, sa), KVStoreCommand::FindLocally(k, a)) => {
            &&& k == sk
            &&& a == sa
        },
        (KVStoreCommandSend::Store(sq, svs), KVStoreCommand::Store(q, vs)) => {
            &&& q == sq
            &&& all_ref_of(svs@, vs@)
        },
        (KVStoreCommandSend::NotFound(sq), KVStoreCommand::NotFound(q)) => q == sq,
        (KVStoreCommandSend::StoreLocally(sv, sp, sa), KVStoreCommand::StoreLocally(v, p, a)) => {
            &&& ref_of(sv, v)
            &&& p == sp
            &&& a == sa
        },
        _ => false,
    }
}

impl<P: Peer, V: KeyVal, VR: Ref<V>, M: Clone> SRef for KVStoreCommand<P, V, VR, M> {
    type Send = KVStoreCommandSend<P, V, VR, M>;

    fn get_sendable(&self) -> (s: KVStoreCommandSend<P, V, VR, M>)
        ensures
            command_sendable_of(*self, s),
    {
        match self {
            KVStoreCommand::Start => KVStoreCommandSend::Start,
            KVStoreCommand::Find(qm, k, oaqid) => KVStoreCommandSend::Find(
                qm.clone(),
                k.clone(),
                *oaqid,
            ),
            KVStoreCommand::FindLocally(k, aqid) => KVStoreCommandSend::FindLocally(
                k.clone(),
                *aqid,
            ),
            KVStoreCommand::Store(qid, vrp) => KVStoreCommandSend::Store(*qid, get_sendables(vrp)),
            KVStoreCommand::NotFound(qid) => KVStoreCommandSend::NotFound(*qid),
            KVStoreCommand::StoreLocally(rp, qp, oaqid) => KVStoreCommandSend::StoreLocally(
                rp.get_sendable(),
                *qp,
                *oaqid,
            ),
        }
    }
}

impl<P: Peer, V: KeyVal, VR: Ref<V>, M: Clone> SToRef<
    KVStoreCommand<P, V, VR, M>,
> for KVStoreCommandSend<P, V, VR, M> {
    fn to_ref(self) -> (c: KVStoreCommand<P, V, VR, M>)
        ensures
            command_ref_of(self, c),
    {
        match self {
            KVStoreCommandSend::Start => KVStoreCommand::Start,
            KVStoreCommandSend::Find(qm, k, oaqid) => KVStoreCommand::Find(qm, k, oaqid),
            KVStoreCommandSend::FindLocally(k, aqid) => KVStoreCommand::FindLocally(k, aqid),
            KVStoreCommandSend::Store(qid, vrp) => KVStoreCommand::Store(qid, to_refs(vrp)),
            KVStoreCommandSend::NotFound(qid) => KVStoreCommand::NotFound(qid),
            KVStoreCommandSend::StoreLocally(rp, qp, oaqid) => KVStoreCommand::StoreLocally(
                rp.to_ref(),
                qp,
                oaqid,
            ),
        }
    }
}

} // verus!
