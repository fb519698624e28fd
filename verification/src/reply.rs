//! What the store service answers, and the form in which an answer to the api crosses threads.
use crate::keyval::{
    all_ref_of, all_sendable_of, get_sendables, ref_of, sendable_of, to_refs, SRef, SToRef,
};
use crate::query::ApiQueryId;
use vstd::prelude::*;

verus! {

/// An answer to an api request.
pub enum KVStoreReply<VR> {
    /// What a search found.
    FoundApi(Option<VR>, ApiQueryId),
    /// All that a search gathered.
    FoundApiMult(Vec<VR>, ApiQueryId),
    Done(ApiQueryId),
}

impl<VR> KVStoreReply<VR> {
    /// The api request that is answered.
    pub open spec fn api_id(self) -> ApiQueryId {
        match self {
            KVStoreReply::FoundApi(_, a) => a,
            KVStoreReply::FoundApiMult(_, a) => a,
            KVStoreReply::Done(a) => a,
        }
    }

    pub fn get_api_reply(&self) -> (r: Option<ApiQueryId>)
        ensures
            r == Some(self.api_id()),
    {
        match self {
            KVStoreReply::FoundApi(_, a) | KVStoreReply::FoundApiMult(_, a) | KVStoreReply::Done(
                a,
            ) => Some(*a),
        }
    }
}

impl<VR: Clone> Clone for KVStoreReply<VR> {
    fn clone(&self) -> (r: Self)
        ensures
            match (*self, r) {
                (KVStoreReply::FoundApi(o, a), KVStoreReply::FoundApi(ro, ra)) => cloned(o, ro) && a
                    == ra,
                (KVStoreReply::FoundApiMult(vs, a), KVStoreReply::FoundApiMult(rvs, ra)) => cloned(
                    vs,
                    rvs,
                ) && a == ra,
                (KVStoreReply::Done(a), KVStoreReply::Done(ra)) => a == ra,
                _ => false,
            },
    {
        match self {
            KVStoreReply::FoundApi(ovr, a) => KVStoreReply::FoundApi(ovr.clone(), *a),
            KVStoreReply::FoundApiMult(vrs, a) => KVStoreReply::FoundApiMult(vrs.clone(), *a),
            KVStoreReply::Done(a) => KVStoreReply::Done(*a),
        }
    }
}

/// An answer to an api request in the form that crosses threads.
pub enum KVStoreReplySend<VR: SRef> {
    FoundApi(Option<<VR as SRef>::Send>, ApiQueryId),
    FoundApiMult(Vec<<VR as SRef>::Send>, ApiQueryId),
    Done(ApiQueryId),
}

/// `s` is `r` with its references in sendable form.
pub open spec fn reply_sendable_of<VR: SRef>(r: KVStoreReply<VR>, s: KVStoreReplySend<VR>) -> bool {
    match (r, s) {
        (KVStoreReply::FoundApi(o, a), KVStoreReplySend::FoundApi(so, sa)) => {
            &&& a == sa
            &&& match (o, so) {
                (Some(v), Some(sv)) => sendable_of(v, sv),
                (None, None) => true,
                _ => false,
            }
        },
        (KVStoreReply::FoundApiMult(vs, a), KVStoreReplySend::FoundApiMult(svs, sa)) => {
            &&& a == sa
            &&& all_sendable_of(vs@, svs@)
        },
        (KVStoreReply::Done(a), KVStoreReplySend::Done(sa)) => a == sa,
        _ => false,
    }
}

/// `r` is `s` with the references that its sendable forms give back.
pub open spec fn reply_ref_of<VR: SRef>(s: KVStoreReplySend<VR>, r: KVStoreReply<VR>) -> bool {
    match (s, r) {
        (KVStoreReplySend::FoundApi(so, sa), KVStoreReply::FoundApi(o, a)) => {
            &&& a == sa
            &&& match (so, o) {
                (Some(sv), Some(v)) => ref_of(sv, v),
                (None, None) => true,
                _ => false,
            }
        },
        (KVStoreReplySend::FoundApiMult(svs, sa), KVStoreReply::FoundApiMult(vs, a)) => {
            &&& a == sa
            &&& all_ref_of(svs@, vs@)
        },
        (KVStoreReplySend::Done(sa), KVStoreReply::Done(a)) => a == sa,
        _ => false,
    }
}

impl<VR: SRef> SRef for KVStoreReply<VR> {
    type Send = KVStoreReplySend<VR>;

    fn get_sendable(&self) -> (s: KVStoreReplySend<VR>)
        ensures
            reply_sendable_of(*self, s),
    {
        match self {
            KVStoreReply::FoundApi(ovr, aqid) => {
                let so = match ovr {
                    Some(v) => Some(v.get_sendable()),
                    None => None,
                };
                KVStoreReplySend::FoundApi(so, *aqid)
            },
            KVStoreReply::FoundApiMult(vrs, aqid) => KVStoreReplySend::FoundApiMult(
                get_sendables(vrs),
                *aqid,
            ),
            KVStoreReply::Done(aqid) => KVStoreReplySend::Done(*aqid),
        }
    }
}

impl<VR: SRef> SToRef<KVStoreReply<VR>> for KVStoreReplySend<VR> {
    fn to_ref(self) -> (r: KVStoreReply<VR>)
        ensures
            reply_ref_of(self, r),
    {
        match self {
            KVStoreReplySend::FoundApi(ovr, aqid) => {
                let o = match ovr {
                    Some(v) => Some(v.to_ref()),
                    None => None,
                };
                KVStoreReply::FoundApi(o, aqid)
            },
            KVStoreReplySend::FoundApiMult(vrs, aqid) => KVStoreReply::FoundApiMult(
                to_refs(vrs),
                aqid,
            ),
            KVStoreReplySend::Done(aqid) => KVStoreReply::Done(aqid),
        }
    }
}

} // verus!
