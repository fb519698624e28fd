//! The answers that the store service sends out.
use crate::command::KVStoreCommand;
use crate::global::GlobalReply;
use crate::keyval::{KeyVal, Peer};
use crate::query::{ApiQueryId, Dests, QueryMsg};
use crate::reply::KVStoreReply;
use vstd::prelude::*;

verus! {

/// What a store service for values `V` wants done.
pub type StoreReply<P, RP, V, VR, M> = GlobalReply<
    P,
    RP,
    KVStoreCommand<P, V, VR, M>,
    KVStoreReply<VR>,
    M,
>;

/// `out` sends the results `vs` to `d`.
pub open spec fn forwards_store<P: Peer, RP, V: KeyVal, VR, M>(
    out: StoreReply<P, RP, V, VR, M>,
    d: Dests<P, RP>,
    vs: Seq<VR>,
) -> bool {
    &&& out matches GlobalReply::Forward(peers, addrs, nb, KVStoreCommand::Store(qid, ws))
    &&& peers == d.peers
    &&& addrs == d.addrs
    &&& nb == 0
    &&& qid == d.query
    &&& ws@ == vs
}

/// `out` reports a missed search to `d`.
pub open spec fn forwards_not_found<P: Peer, RP, V: KeyVal, VR, M>(
    out: StoreReply<P, RP, V, VR, M>,
    d: Dests<P, RP>,
) -> bool {
    out == GlobalReply::<P, RP, KVStoreCommand<P, V, VR, M>, KVStoreReply<VR>, M>::Forward(
        d.peers,
        d.addrs,
        0,
        KVStoreCommand::NotFound(d.query),
    )
}

/// `out` sends the search on to as many nodes as `msg` says, on nobody's behalf.
pub open spec fn forwards_find<P: Peer, RP, V: KeyVal, VR, M>(
    out: StoreReply<P, RP, V, VR, M>,
    msg: QueryMsg<P, M>,
    key: V::Key,
) -> bool {
    out == GlobalReply::<P, RP, KVStoreCommand<P, V, VR, M>, KVStoreReply<VR>, M>::Forward(
        None,
        None,
        msg.nb_forw as usize,
        KVStoreCommand::Find(msg, key, None),
    )
}

/// `out` answers the api request `api` with all of `vs`.
pub open spec fn gives_all<P: Peer, RP, V: KeyVal, VR, M>(
    out: StoreReply<P, RP, V, VR, M>,
    api: ApiQueryId,
    vs: Seq<VR>,
) -> bool {
    &&& out matches GlobalReply::Api(KVStoreReply::FoundApiMult(ws, a))
    &&& ws@ == vs
    &&& a == api
}

/// `out` answers the api request `api` with `o`.
pub open spec fn gives_one<P: Peer, RP, V: KeyVal, VR, M>(
    out: StoreReply<P, RP, V, VR, M>,
    api: ApiQueryId,
    o: Option<VR>,
) -> bool {
    out == GlobalReply::<P, RP, KVStoreCommand<P, V, VR, M>, KVStoreReply<VR>, M>::Api(
        KVStoreReply::FoundApi(o, api),
    )
}

pub fn forward_store<P: Peer, RP, V: KeyVal, VR, M>(d: Dests<P, RP>, vs: Vec<VR>) -> (out:
    StoreReply<P, RP, V, VR, M>)
    ensures
        forwards_store(out, d, vs@),
{
    GlobalReply::Forward(d.peers, d.addrs, 0, KVStoreCommand::Store(d.query, vs))
}

pub fn forward_one<P: Peer, RP, V: KeyVal, VR, M>(d: Dests<P, RP>, v: VR) -> (out: StoreReply<
    P,
    RP,
    V,
    VR,
    M,
>)
    ensures
        forwards_store(out, d, seq![v]),
{
    let mut vs: Vec<VR> = Vec::new();
    vs.push(v);
    assert(vs@ =~= seq![v]);
    forward_store(d, vs)
}

pub fn forward_not_found<P: Peer, RP, V: KeyVal, VR, M>(d: Dests<P, RP>) -> (out: StoreReply<
    P,
    RP,
    V,
    VR,
    M,
>)
    ensures
        forwards_not_found(out, d),
{
    GlobalReply::Forward(d.peers, d.addrs, 0, KVStoreCommand::NotFound(d.query))
}

pub fn forward_find<P: Peer, RP, V: KeyVal, VR, M>(msg: QueryMsg<P, M>, key: V::Key) -> (out:
    StoreReply<P, RP, V, VR, M>)
    ensures
        forwards_find(out, msg, key),
{
    let nb_forw: u8 = msg.nb_forw;
    GlobalReply::Forward(None, None, nb_forw as usize, KVStoreCommand::Find(msg, key, None))
}

} // verus!
