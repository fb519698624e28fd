//! What messages, commands and answers keep when they change their form.
//!
//! Each law speaks of what a function returned, part by part.
use crate::answer::{forward_find, forward_not_found, forward_one, forward_store, StoreReply};
use crate::command::{KVStoreCommand, KVStoreCommandSend};
use crate::error::Error;
use crate::global::{
    from_kv, marked_as_peer, GlobalReply, MyDHTConf, OptPeerGlobalDest, PeerStoreReply, SpawnSend,
};
use crate::keyval::{get_sendables, to_refs, KeyVal, Peer, Ref, SRef, SToRef, SerRef};
use crate::proto::{refs_in, KVStoreProtoMsg};
use crate::query::{ApiQueryId, Asker, Dests, LastSent, QReply, Query, QueryMsg};
use crate::reply::{KVStoreReply, KVStoreReplySend};
use vstd::prelude::*;

verus! {

/// Results and reports of missed searches are forwarded to all of the given destinations, to no
/// picked one, and under the id that the destinations name.
pub proof fn law_forwarded_answers<P: Peer, RP, V: KeyVal, VR, M>(
    d: Dests<P, RP>,
    vs: Vec<VR>,
    v: VR,
    all: StoreReply<P, RP, V, VR, M>,
    one: StoreReply<P, RP, V, VR, M>,
    none: StoreReply<P, RP, V, VR, M>,
)
    requires
        call_ensures(forward_store::<P, RP, V, VR, M>, (d, vs), all),
        call_ensures(forward_one::<P, RP, V, VR, M>, (d, v), one),
        call_ensures(forward_not_found::<P, RP, V, VR, M>, (d,), none),
    ensures
        all matches GlobalReply::Forward(ps, ads, n, KVStoreCommand::Store(id, ws)) && ps == d.peers
            && ads == d.addrs && n == 0 && id == d.query && ws@ == vs@,
        one matches GlobalReply::Forward(ps, ads, n, KVStoreCommand::Store(id, ws)) && ps == d.peers
            && ads == d.addrs && n == 0 && id == d.query && ws@ == seq![v],
        none matches GlobalReply::Forward(ps, ads, n, KVStoreCommand::NotFound(id)) && ps
            == d.peers && ads == d.addrs && n == 0 && id == d.query,
{
}

/// A search is forwarded with its message and key as they are, to as many nodes as the message
/// says, and for no api request.
pub proof fn law_forwarded_searches<P: Peer, RP, V: KeyVal, VR, M>(
    msg: QueryMsg<P, M>,
    key: V::Key,
    out: StoreReply<P, RP, V, VR, M>,
)
    requires
        call_ensures(forward_find::<P, RP, V, VR, M>, (msg, key), out),
    ensures
        out matches GlobalReply::Forward(None, None, n, KVStoreCommand::Find(m, k, None)) && n
            == msg.nb_forw && m == msg && k == key,
{
}

/// `path` leads to a part of `r`: its numbers pick a part of each group of answers on the way.
pub open spec fn has_part<P: Peer, PR, GSC, GSR, M>(
    r: GlobalReply<P, PR, GSC, GSR, M>,
    path: Seq<int>,
) -> bool
    decreases path.len(),
{
    path.len() == 0 || (r matches GlobalReply::Mult(rs) && 0 <= path[0] < rs@.len() && has_part(
        rs@[path[0]],
        path.drop_first(),
    ))
}

/// The part of `r` that `path` leads to.
pub open spec fn part_at<P: Peer, PR, GSC, GSR, M>(
    r: GlobalReply<P, PR, GSC, GSR, M>,
    path: Seq<int>,
) -> GlobalReply<P, PR, GSC, GSR, M>
    decreases path.len(),
{
    match r {
        GlobalReply::Mult(rs) if path.len() > 0 => part_at(rs@[path[0]], path.drop_first()),
        _ => r,
    }
}

proof fn lemma_marked_part<P: Peer, PR, GSC, GSR, M>(
    t: PeerStoreReply<P, PR, M>,
    r: GlobalReply<P, PR, GSC, GSR, M>,
    path: Seq<int>,
)
    requires
        marked_as_peer(t, r),
    ensures
        has_part(t, path) <==> has_part(r, path),
        has_part(t, path) ==> marked_as_peer(part_at(t, path), part_at(r, path)),
    decreases path.len(),
{
    if path.len() > 0 {
        if let (GlobalReply::Mult(ts), GlobalReply::Mult(rs)) = (t, r) {
            if 0 <= path[0] < ts@.len() {
                assert(marked_as_peer(ts@[path[0]], rs@[path[0]]));
                lemma_marked_part(ts@[path[0]], rs@[path[0]], path.drop_first());
            }
        }
    }
}

/// The part of `r` at `path` is that of `t` with a mark: the same command to the same
/// destinations, the same answer to the api with its value, its results and its id.
pub open spec fn part_is_marked<P: Peer, PR, GSC, GSR, M>(
    t: PeerStoreReply<P, PR, M>,
    r: GlobalReply<P, PR, GSC, GSR, M>,
    path: Seq<int>,
) -> bool {
    match (part_at(t, path), part_at(r, path)) {
        (
            GlobalReply::Forward(ps, ads, n, c) | GlobalReply::PeerForward(ps, ads, n, c),
            GlobalReply::PeerForward(rps, rads, rn, rc),
        ) => rps == ps && rads == ads && rn == n && rc == c,
        (GlobalReply::Api(k) | GlobalReply::PeerApi(k), GlobalReply::PeerApi(rk)) => rk == k,
        (GlobalReply::NoRep, GlobalReply::NoRep) => true,
        (GlobalReply::Mult(ts), GlobalReply::Mult(rs)) => rs@.len() == ts@.len(),
        _ => false,
    }
}

/// Marking what the store of peers wants done keeps every part in its place and changes nothing
/// but the mark.
pub proof fn law_marking_keeps_every_part<P: Peer, PR: Ref<P>, GSC, GSR, M>(
    t: PeerStoreReply<P, PR, M>,
    r: GlobalReply<P, PR, GSC, GSR, M>,
    path: Seq<int>,
)
    requires
        call_ensures(from_kv::<P, PR, GSC, GSR, M>, (t,), r),
    ensures
        has_part(t, path) <==> has_part(r, path),
        has_part(t, path) ==> part_is_marked(t, r, path),
{
    lemma_marked_part(t, r, path);
}

/// Nothing is lost by marking: where two wishes of the store of peers, neither marked yet, have
/// the same marked form, they are the same in every part.
pub proof fn law_marking_loses_nothing<P: Peer, PR: Ref<P>, GSC, GSR, M>(
    t: PeerStoreReply<P, PR, M>,
    u: PeerStoreReply<P, PR, M>,
    r: GlobalReply<P, PR, GSC, GSR, M>,
    path: Seq<int>,
)
    requires
        call_ensures(from_kv::<P, PR, GSC, GSR, M>, (t,), r),
        call_ensures(from_kv::<P, PR, GSC, GSR, M>, (u,), r),
        has_part(t, path),
        !(part_at(t, path) is PeerForward || part_at(t, path) is PeerApi),
        !(part_at(u, path) is PeerForward || part_at(u, path) is PeerApi),
    ensures
        has_part(u, path),
        match part_at(t, path) {
            GlobalReply::Mult(ts) => part_at(u, path) matches GlobalReply::Mult(us) && us@.len()
                == ts@.len(),
            _ => part_at(u, path) == part_at(t, path),
        },
{
    law_marking_keeps_every_part(t, r, path);
    law_marking_keeps_every_part(u, r, path);
}

/// What is sent for the store of peers is sent once, marked, to where what the services want
/// done goes; and what came of that is what is returned.
pub proof fn law_peer_wishes_are_sent<MC: MyDHTConf>(
    dest: &mut OptPeerGlobalDest<MC>,
    c: PeerStoreReply<MC::Peer, MC::PeerRef, MC::ModeInfo>,
    r: Result<(), Error>,
)
    requires
        call_ensures(
            <OptPeerGlobalDest<MC> as SpawnSend<
                PeerStoreReply<MC::Peer, MC::PeerRef, MC::ModeInfo>,
            >>::send,
            (dest, c),
            r,
        ),
    ensures
        exists|g|
            {
                &&& #[trigger] MC::GlobalDest::sent(old(dest).0, g, final(dest).0, r)
                &&& forall|path: Seq<int>| #[trigger]
                    has_part(c, path) <==> has_part(g, path)
                &&& forall|path: Seq<int>| #[trigger]
                    has_part(c, path) ==> part_is_marked(c, g, path)
            },
{
    let g = choose|g|
        marked_as_peer(c, g) && #[trigger] MC::GlobalDest::sent(old(dest).0, g, final(dest).0, r);
    assert forall|path: Seq<int>|
        (#[trigger] has_part(c, path) <==> has_part(g, path)) && (has_part(c, path)
            ==> part_is_marked(c, g, path)) by {
        lemma_marked_part(c, g, path);
    }
}

/// A search, results and the report of a missed search have a message, which carries all that
/// they say but the api request; nothing else has one.
pub proof fn law_message_of_a_command<P: Peer, V: KeyVal, VR: Ref<V>, M>(
    c: KVStoreCommand<P, V, VR, M>,
    can: bool,
    r: Option<KVStoreProtoMsg<P, V, VR, M>>,
)
    requires
        call_ensures(KVStoreProtoMsg::<P, V, VR, M>::can_from, (&c,), can),
        call_ensures(KVStoreProtoMsg::<P, V, VR, M>::opt_from, (c,), r),
    ensures
        can == r is Some,
        match c {
            KVStoreCommand::Find(msg, key, _) => r matches Some(KVStoreProtoMsg::FIND(m, k)) && m
                == msg && k == key,
            KVStoreCommand::Store(id, vs) => r matches Some(KVStoreProtoMsg::STORE(q, ws)) && q
                == id && ws@.len() == vs@.len() && forall|i: int|
                0 <= i < vs@.len() ==> (#[trigger] ws@[i]).0 == vs@[i],
            KVStoreCommand::NotFound(id) => r matches Some(KVStoreProtoMsg::NOT_FOUND(q)) && q
                == id,
            _ => r is None,
        },
{
    if let (KVStoreCommand::Store(_, vs), Some(KVStoreProtoMsg::STORE(_, ws))) = (c, r) {
        assert(refs_in(ws@) == vs@);
        assert forall|i: int| 0 <= i < vs@.len() implies (#[trigger] ws@[i]).0 == vs@[i] by {
            assert(refs_in(ws@)[i] == ws@[i].0);
        }
    }
}

/// The command that a message stands for carries all that the message does, and answers no api
/// request.
pub proof fn law_command_of_a_message<P: Peer, V: KeyVal, VR: Ref<V>, M>(
    m: KVStoreProtoMsg<P, V, VR, M>,
    c: KVStoreCommand<P, V, VR, M>,
)
    requires
        m !is PROPAGATE,
        call_ensures(KVStoreProtoMsg::<P, V, VR, M>::into, (m,), c),
    ensures
        match m {
            KVStoreProtoMsg::FIND(msg, key) => c matches KVStoreCommand::Find(n, k, None) && n
                == msg && k == key,
            KVStoreProtoMsg::STORE(id, ws) => c matches KVStoreCommand::Store(q, vs) && q == id
                && vs@.len() == ws@.len() && forall|i: int|
                0 <= i < ws@.len() ==> #[trigger] vs@[i] == ws@[i].0,
            KVStoreProtoMsg::NOT_FOUND(id) => c matches KVStoreCommand::NotFound(q) && q == id,
            _ => false,
        },
{
    if let (KVStoreCommand::Store(_, vs), KVStoreProtoMsg::STORE(_, ws)) = (c, m) {
        assert(refs_in(ws@) == vs@);
        assert forall|i: int| 0 <= i < ws@.len() implies #[trigger] vs@[i] == ws@[i].0 by {
            assert(refs_in(ws@)[i] == ws@[i].0);
        }
    }
}

/// Searches and values to keep can be for an api request. The request is the one that the command
/// names; to set it changes the command in nothing else.
pub proof fn law_api_requests<P: Peer, V: KeyVal, VR, M>(
    c: &mut KVStoreCommand<P, V, VR, M>,
    i: ApiQueryId,
    can: bool,
    a: Option<ApiQueryId>,
)
    requires
        call_ensures(KVStoreCommand::<P, V, VR, M>::is_api_reply, (&*old(c),), can),
        call_ensures(KVStoreCommand::<P, V, VR, M>::get_api_reply, (&*old(c),), a),
        call_ensures(KVStoreCommand::<P, V, VR, M>::set_api_reply, (c, i), ()),
    ensures
        match *old(c) {
            KVStoreCommand::Find(msg, key, oapi) => can && a == oapi && *final(c)
                == KVStoreCommand::<P, V, VR, M>::Find(msg, key, Some(i)),
            KVStoreCommand::FindLocally(key, api) => can && a == Some(api) && *final(c)
                == KVStoreCommand::<P, V, VR, M>::FindLocally(key, i),
            KVStoreCommand::StoreLocally(v, prio, oapi) => can && a == oapi && *final(c)
                == KVStoreCommand::<P, V, VR, M>::StoreLocally(v, prio, Some(i)),
            _ => !can && a is None && *final(c) == *old(c),
        },
{
}

/// Any answer to the api names the request that it answers.
pub proof fn law_answered_requests<VR>(r: KVStoreReply<VR>, a: Option<ApiQueryId>)
    requires
        call_ensures(KVStoreReply::<VR>::get_api_reply, (&r,), a),
    ensures
        match r {
            KVStoreReply::FoundApi(_, b) => a == Some(b),
            KVStoreReply::FoundApiMult(_, b) => a == Some(b),
            KVStoreReply::Done(b) => a == Some(b),
        },
{
}

/// References cross threads one by one and in order, both ways.
pub proof fn law_references_in_order<R: SRef>(
    rs: Vec<R>,
    sent: Vec<R::Send>,
    ss: Vec<R::Send>,
    back: Vec<R>,
)
    requires
        call_ensures(get_sendables::<R>, (&rs,), sent),
        call_ensures(to_refs::<R>, (ss,), back),
    ensures
        sent@.len() == rs@.len(),
        back@.len() == ss@.len(),
        forall|i: int|
            #![trigger rs@[i]]
            0 <= i < rs@.len() ==> call_ensures(R::get_sendable, (&rs@[i],), sent@[i]),
        forall|i: int|
            #![trigger ss@[i]]
            0 <= i < ss@.len() ==> call_ensures(
                <R::Send as SToRef<R>>::to_ref,
                (ss@[i],),
                back@[i],
            ),
{
}

/// A command in the form that crosses threads is the same command, for the same request, with its
/// message and key cloned and each of its references in sendable form.
pub proof fn law_sendable_command<P: Peer, V: KeyVal, VR: Ref<V>, M: Clone>(
    c: KVStoreCommand<P, V, VR, M>,
    s: KVStoreCommandSend<P, V, VR, M>,
)
    requires
        call_ensures(<KVStoreCommand<P, V, VR, M> as SRef>::get_sendable, (&c,), s),
    ensures
        match c {
            KVStoreCommand::Start => s is Start,
            KVStoreCommand::Find(msg, key, oapi) => s matches KVStoreCommandSend::Find(m, k, a)
                && cloned(msg, m) && cloned(key, k) && a == oapi,
            KVStoreCommand::FindLocally(key, api) => s matches KVStoreCommandSend::FindLocally(k, a)
                && cloned(key, k) && a == api,
            KVStoreCommand::Store(id, vs) => s matches KVStoreCommandSend::Store(q, ss) && q == id
                && ss@.len() == vs@.len() && forall|i: int|
                #![trigger vs@[i]]
                0 <= i < vs@.len() ==> call_ensures(VR::get_sendable, (&vs@[i],), ss@[i]),
            KVStoreCommand::NotFound(id) => s matches KVStoreCommandSend::NotFound(q) && q == id,
            KVStoreCommand::StoreLocally(v, prio, oapi) => s matches
                KVStoreCommandSend::StoreLocally(w, p, a) && call_ensures(
                VR::get_sendable,
                (&v,),
                w,
            ) && p == prio && a == oapi,
        },
{
}

/// A command that comes back from another thread is the same command, for the same request, with
/// the reference that each sendable form gives.
pub proof fn law_command_from_a_thread<P: Peer, V: KeyVal, VR: Ref<V>, M: Clone>(
    s: KVStoreCommandSend<P, V, VR, M>,
    c: KVStoreCommand<P, V, VR, M>,
)
    requires
        call_ensures(
            <KVStoreCommandSend<P, V, VR, M> as SToRef<KVStoreCommand<P, V, VR, M>>>::to_ref,
            (s,),
            c,
        ),
    ensures
        match s {
            KVStoreCommandSend::Start => c is Start,
            KVStoreCommandSend::Find(msg, key, oapi) => c matches KVStoreCommand::Find(m, k, a) && m
                == msg && k == key && a == oapi,
            KVStoreCommandSend::FindLocally(key, api) => c matches KVStoreCommand::FindLocally(k, a)
                && k == key && a == api,
            KVStoreCommandSend::Store(id, ss) => c matches KVStoreCommand::Store(q, vs) && q == id
                && vs@.len() == ss@.len() && forall|i: int|
                #![trigger ss@[i]]
                0 <= i < ss@.len() ==> call_ensures(
                    <VR::Send as SToRef<VR>>::to_ref,
                    (ss@[i],),
                    vs@[i],
                ),
            KVStoreCommandSend::NotFound(id) => c matches KVStoreCommand::NotFound(q) && q == id,
            KVStoreCommandSend::StoreLocally(w, prio, oapi) => c matches
                KVStoreCommand::StoreLocally(v, p, a) && call_ensures(
                <VR::Send as SToRef<VR>>::to_ref,
                (w,),
                v,
            ) && p == prio && a == oapi,
        },
{
}

/// An answer in the form that crosses threads is the same answer to the same request, with each
/// of its references in sendable form; and so on the way back.
pub proof fn law_answer_across_threads<VR: SRef>(
    r: KVStoreReply<VR>,
    sent: KVStoreReplySend<VR>,
    s: KVStoreReplySend<VR>,
    back: KVStoreReply<VR>,
)
    requires
        call_ensures(<KVStoreReply<VR> as SRef>::get_sendable, (&r,), sent),
        call_ensures(<KVStoreReplySend<VR> as SToRef<KVStoreReply<VR>>>::to_ref, (s,), back),
    ensures
        match r {
            KVStoreReply::FoundApi(o, a) => sent matches KVStoreReplySend::FoundApi(p, b) && a == b
                && (o is Some <==> p is Some) && (o matches Some(v) ==> call_ensures(
                VR::get_sendable,
                (&v,),
                p->0,
            )),
            KVStoreReply::FoundApiMult(vs, a) => sent matches KVStoreReplySend::FoundApiMult(ss, b)
                && a == b && ss@.len() == vs@.len() && forall|i: int|
                #![trigger vs@[i]]
                0 <= i < vs@.len() ==> call_ensures(VR::get_sendable, (&vs@[i],), ss@[i]),
            KVStoreReply::Done(a) => sent matches KVStoreReplySend::Done(b) && a == b,
        },
        match s {
            KVStoreReplySend::FoundApi(o, a) => back matches KVStoreReply::FoundApi(p, b) && a == b
                && (o is Some <==> p is Some) && (o matches Some(w) ==> call_ensures(
                <VR::Send as SToRef<VR>>::to_ref,
                (w,),
                p->0,
            )),
            KVStoreReplySend::FoundApiMult(ss, a) => back matches KVStoreReply::FoundApiMult(vs, b)
                && a == b && vs@.len() == ss@.len() && forall|i: int|
                #![trigger ss@[i]]
                0 <= i < ss@.len() ==> call_ensures(
                    <VR::Send as SToRef<VR>>::to_ref,
                    (ss@[i],),
                    vs@[i],
                ),
            KVStoreReplySend::Done(a) => back matches KVStoreReply::Done(b) && a == b,
        },
{
}

/// A clone of a command is the same command, for the same request, with each of its parts cloned.
pub proof fn law_cloned_command<P: Peer, V: KeyVal, VR: Clone, M: Clone>(
    c: KVStoreCommand<P, V, VR, M>,
    r: KVStoreCommand<P, V, VR, M>,
)
    requires
        call_ensures(<KVStoreCommand<P, V, VR, M> as Clone>::clone, (&c,), r),
    ensures
        match c {
            KVStoreCommand::Start => r is Start,
            KVStoreCommand::Find(msg, key, oapi) => r matches KVStoreCommand::Find(m, k, a)
                && cloned(msg, m) && cloned(key, k) && a == oapi,
            KVStoreCommand::FindLocally(key, api) => r matches KVStoreCommand::FindLocally(k, a)
                && cloned(key, k) && a == api,
            KVStoreCommand::Store(id, vs) => r matches KVStoreCommand::Store(q, ws) && q == id
                && cloned(vs, ws),
            KVStoreCommand::NotFound(id) => r matches KVStoreCommand::NotFound(q) && q == id,
            KVStoreCommand::StoreLocally(v, prio, oapi) => r matches KVStoreCommand::StoreLocally(
                w,
                p,
                a,
            ) && cloned(v, w) && p == prio && a == oapi,
        },
{
}

/// A clone of an answer is the same answer to the same request, with its references cloned.
pub proof fn law_cloned_answer<VR: Clone>(r: KVStoreReply<VR>, s: KVStoreReply<VR>)
    requires
        call_ensures(<KVStoreReply<VR> as Clone>::clone, (&r,), s),
    ensures
        match r {
            KVStoreReply::FoundApi(o, a) => s matches KVStoreReply::FoundApi(p, b) && cloned(o, p)
                && a == b,
            KVStoreReply::FoundApiMult(vs, a) => s matches KVStoreReply::FoundApiMult(ws, b)
                && cloned(vs, ws) && a == b,
            KVStoreReply::Done(a) => s matches KVStoreReply::Done(b) && a == b,
        },
{
}

/// A clone of a query on its way says the same, with its mode and its history cloned.
pub proof fn law_cloned_message<P: Peer, M: Clone>(
    m: QueryMsg<P, M>,
    n: QueryMsg<P, M>,
    h: LastSent<P>,
    l: LastSent<P>,
)
    requires
        call_ensures(<QueryMsg<P, M> as Clone>::clone, (&m,), n),
        call_ensures(<LastSent<P> as Clone>::clone, (&h,), l),
    ensures
        cloned(m.mode_info, n.mode_info),
        cloned(m.hop_hist, n.hop_hist),
        n == (QueryMsg { mode_info: n.mode_info, hop_hist: n.hop_hist, ..m }),
        match h {
            LastSent::LastSentHop(k, ks) => l matches LastSent::LastSentHop(j, js) && j == k
                && cloned(ks, js),
            LastSent::LastSentPeer(k, ks) => l matches LastSent::LastSentPeer(j, js) && j == k
                && cloned(ks, js),
        },
{
}

/// A reference in a message is the reference that was put there.
pub proof fn law_reference_in_a_message<V, R>(r: R, s: SerRef<V, R>)
    requires
        call_ensures(SerRef::<V, R>::new, (r,), s),
    ensures
        s.0 == r,
{
}

/// A query that waits is seen as what it is made of.
pub proof fn law_waiting_query<M, VR, RP>(q: Query<M, VR, RP>)
    ensures
        q@.id == q.0,
        q@.expire == q.2,
        match q.1 {
            QReply::Local(api, n, vs, misses, prio) => q@.asker == Asker::<M, RP>::Api(api, prio)
                && q@.nb_res == n && q@.results == vs@ && q@.nb_not_found == misses,
            QReply::Dist(info, from, n, vs, misses) => q@.asker == Asker::<M, RP>::Node(info, from)
                && q@.nb_res == n && q@.results == vs@ && q@.nb_not_found == misses,
        },
{
}

/// A query that gains results has them after those it had, and is otherwise as it was. It is
/// full when it has exactly as many as it expects.
pub proof fn law_gained_results<M, VR, RP>(q: &mut Query<M, VR, RP>, vs: Vec<VR>, full: bool)
    requires
        call_ensures(Query::<M, VR, RP>::gain, (q, vs), full),
    ensures
        final(q)@.results == old(q)@.results + vs@,
        final(q)@.id == old(q)@.id,
        final(q)@.asker == old(q)@.asker,
        final(q)@.nb_res == old(q)@.nb_res,
        final(q)@.nb_not_found == old(q)@.nb_not_found,
        final(q)@.expire == old(q)@.expire,
        full <==> old(q)@.results.len() + vs@.len() == old(q)@.nb_res,
{
}

/// A missed search is counted down, but not below none, and the query is otherwise as it was. It
/// is the last one when exactly one was waited for.
pub proof fn law_counted_miss<M, VR, RP>(q: &mut Query<M, VR, RP>, last: bool)
    requires
        call_ensures(Query::<M, VR, RP>::miss, (q,), last),
    ensures
        final(q)@.nb_not_found == if old(q)@.nb_not_found == 0 {
            0
        } else {
            old(q)@.nb_not_found - 1
        },
        final(q)@.id == old(q)@.id,
        final(q)@.asker == old(q)@.asker,
        final(q)@.nb_res == old(q)@.nb_res,
        final(q)@.results == old(q)@.results,
        final(q)@.expire == old(q)@.expire,
        last <==> old(q)@.nb_not_found == 1,
{
}

} // verus!
