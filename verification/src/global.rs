//! What goes in and out of a node's services.
use crate::command::KVStoreCommand;
use crate::error::Error;
use crate::keyval::{Peer, Ref};
use crate::reply::KVStoreReply;
use vstd::prelude::*;

verus! {

/// A command, and the peer it came from if it came from one.
pub struct GlobalCommand<RP, C>(pub Option<RP>, pub C);

/// What a service wants done.
///
/// `GSC` and `GSR` are the commands and api answers of the service. The store of peers is a
/// service too; the variants that begin with `Peer` carry what it wants done.
pub enum GlobalReply<P: Peer, PR, GSC, GSR, M> {
    /// Forward a command to the given peers, to the given addresses, and to a number of peers
    /// that the routing picks.
    Forward(Option<Vec<PR>>, Option<Vec<(P::Key, P::Address)>>, usize, GSC),
    PeerForward(
        Option<Vec<PR>>,
        Option<Vec<(P::Key, P::Address)>>,
        usize,
        KVStoreCommand<P, P, PR, M>,
    ),
    /// Answer an api request.
    Api(GSR),
    PeerApi(KVStoreReply<PR>),
    NoRep,
    Mult(Vec<GlobalReply<P, PR, GSC, GSR, M>>),
}

/// What the store of peers wants done, before it is marked as such.
pub type PeerStoreReply<P, PR, M> = GlobalReply<
    P,
    PR,
    KVStoreCommand<P, P, PR, M>,
    KVStoreReply<PR>,
    M,
>;

/// `r` is `t` with every part marked as wanted by the store of peers.
pub open spec fn marked_as_peer<P: Peer, PR, GSC, GSR, M>(
    t: PeerStoreReply<P, PR, M>,
    r: GlobalReply<P, PR, GSC, GSR, M>,
) -> bool
    decreases t,
{
    match (t, r) {
        (GlobalReply::Forward(a, b, n, c), GlobalReply::PeerForward(ra, rb, rn, rc)) => ra == a
            && rb == b && rn == n && rc == c,
        (GlobalReply::PeerForward(a, b, n, c), GlobalReply::PeerForward(ra, rb, rn, rc)) => ra == a
            && rb == b && rn == n && rc == c,
        (GlobalReply::Api(k), GlobalReply::PeerApi(rk)) => rk == k,
        (GlobalReply::PeerApi(k), GlobalReply::PeerApi(rk)) => rk == k,
        (GlobalReply::NoRep, GlobalReply::NoRep) => true,
        (GlobalReply::Mult(ts), GlobalReply::Mult(rs)) => {
            &&& ts@.len() == rs@.len()
            &&& forall|i: int|
                0 <= i < ts@.len() ==> marked_as_peer(#[trigger] ts@[i], rs@[i])
        },
        _ => false,
    }
}

/// Marks what the store of peers wants done.
pub fn from_kv<P: Peer, PR: Ref<P>, GSC, GSR, M>(t: PeerStoreReply<P, PR, M>) -> (r: GlobalReply<
    P,
    PR,
    GSC,
    GSR,
    M,
>)
    ensures
        marked_as_peer(t, r),
    decreases t,
{
    match t {
        GlobalReply::Forward(opr, okad, nbfor, ksc) => GlobalReply::PeerForward(
            opr,
            okad,
            nbfor,
            ksc,
        ),
        GlobalReply::PeerForward(opr, okad, nbfor, ksc) => GlobalReply::PeerForward(
            opr,
            okad,
            nbfor,
            ksc,
        ),
        GlobalReply::Api(ksr) => GlobalReply::PeerApi(ksr),
        GlobalReply::PeerApi(ksr) => GlobalReply::PeerApi(ksr),
        GlobalReply::NoRep => GlobalReply::NoRep,
        GlobalReply::Mult(vkr) => {
            let mut vgr: Vec<GlobalReply<P, PR, GSC, GSR, M>> = Vec::new();
            let ghost all = vkr@;
            for kr in it: vkr
                invariant
                    t matches GlobalReply::Mult(v) && v@ == all,
                    it.seq() == all,
                    vgr@.len() == it.index(),
                    forall|i: int|
                        0 <= i < vgr@.len() ==> marked_as_peer(#[trigger] all[i], vgr@[i]),
            {
                assert(decreases_to!(t => t->Mult_0@[it.index()]));
                vgr.push(from_kv(kr));
            }
            GlobalReply::Mult(vgr)
        },
    }
}

/// The end of a channel that is written to.
pub trait SpawnSend<C>: Sized {
    const CAN_SEND: bool;

    /// `after` and `r` are what `send` may leave and return, called on `before` with `c`.
    ///
    /// Everything is, unless the implementation narrows it down.
    open spec fn sent(before: Self, c: C, after: Self, r: Result<(), Error>) -> bool {
        true
    }

    fn send(&mut self, c: C) -> (r: Result<(), Error>)
        ensures
            Self::sent(*old(self), c, *final(self), r),
    ;
}

/// The types that a node is made of.
pub trait MyDHTConf: Sized {
    type Peer: Peer;

    type PeerRef: Ref<Self::Peer>;

    /// How the answers to queries travel back.
    type ModeInfo: Clone;

    type GlobalServiceCommand;

    type GlobalServiceReply;

    /// Where what the services want done goes to.
    type GlobalDest: SpawnSend<
        GlobalReply<
            Self::Peer,
            Self::PeerRef,
            Self::GlobalServiceCommand,
            Self::GlobalServiceReply,
            Self::ModeInfo,
        >,
    >;
}

/// Sends what the store of peers wants done where what the services want done goes to.
pub struct OptPeerGlobalDest<MC: MyDHTConf>(pub MC::GlobalDest);

impl<MC: MyDHTConf> SpawnSend<
    PeerStoreReply<MC::Peer, MC::PeerRef, MC::ModeInfo>,
> for OptPeerGlobalDest<MC> {
    const CAN_SEND: bool = true;

    open spec fn sent(
        before: Self,
        c: PeerStoreReply<MC::Peer, MC::PeerRef, MC::ModeInfo>,
        after: Self,
        r: Result<(), Error>,
    ) -> bool {
        exists|g| marked_as_peer(c, g) && #[trigger] MC::GlobalDest::sent(before.0, g, after.0, r)
    }

    fn send(&mut self, c: PeerStoreReply<MC::Peer, MC::PeerRef, MC::ModeInfo>) -> (r: Result<
        (),
        Error,
    >) {
        let gr = from_kv(c);
        let r = self.0.send(gr);
        assert(marked_as_peer(c, gr) && MC::GlobalDest::sent(old(self).0, gr, self.0, r));
        r
    }
}

} // verus!
