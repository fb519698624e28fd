//! The commands that cross the network.
use crate::command::KVStoreCommand;
use crate::keyval::{KeyVal, Peer, Ref, SerRef};
use crate::query::{PropagateMsg, QueryID, QueryMsg};
use vstd::pervasive::unreached;
use vstd::prelude::*;

verus! {

/// A protocol message of the store service.
#[allow(non_camel_case_types)]
#[derive(Debug)]
pub enum KVStoreProtoMsg<P: Peer, V: KeyVal, R: Ref<V>, M> {
    FIND(QueryMsg<P, M>, V::Key),
    /// Results for a query.
    STORE(QueryID, Vec<SerRef<V, R>>),
    NOT_FOUND(QueryID),
    /// A value that was not asked for. No command stands for it.
    PROPAGATE(PropagateMsg, SerRef<V, R>),
}

/// The references inside `ws`.
pub open spec fn refs_in<V, R>(ws: Seq<SerRef<V, R>>) -> Seq<R> {
    ws.map_values(|w: SerRef<V, R>| w.0)
}

/// `c` is a command that crosses the network.
pub open spec fn crosses<P: Peer, V: KeyVal, VR, M>(c: KVStoreCommand<P, V, VR, M>) -> bool {
    c is Find || c is Store || c is NotFound
}

/// `m` says what `c` says, except which api request is to be answered.
pub open spec fn says<P: Peer, V: KeyVal, VR: Ref<V>, M>(
    m: KVStoreProtoMsg<P, V, VR, M>,
    c: KVStoreCommand<P, V, VR, M>,
) -> bool {
    match (m, c) {
        (KVStoreProtoMsg::FIND(mqm, mk), KVStoreCommand::Find(qm, k, _)) => mqm == qm && mk == k,
        (KVStoreProtoMsg::STORE(mq, ws), KVStoreCommand::Store(q, vs)) => mq == q && refs_in(ws@)
            == vs@,
        (KVStoreProtoMsg::NOT_FOUND(mq), KVStoreCommand::NotFound(q)) => mq == q,
        _ => false,
    }
}

impl<P: Peer, V: KeyVal, VR: Ref<V>, M> KVStoreProtoMsg<P, V, VR, M> {
    /// Is there a message for `c`?
    pub fn can_from(c: &KVStoreCommand<P, V, VR, M>) -> (r: bool)
        ensures
            r == crosses(*c),
    {
        match c {
            KVStoreCommand::Start => false,
            KVStoreCommand::Find(_, _, _) => true,
            KVStoreCommand::FindLocally(_, _) => false,
            KVStoreCommand::Store(_, _) => true,
            KVStoreCommand::NotFound(_) => true,
            KVStoreCommand::StoreLocally(_, _, _) => false,
        }
    }

    /// The message for `c`, if there is one.
    pub fn opt_from(c: KVStoreCommand<P, V, VR, M>) -> (r: Option<Self>)
        ensures
            r is Some <==> crosses(c),
            r matches Some(m) ==> says(m, c),
    {
        match c {
            KVStoreCommand::Start => None,
            KVStoreCommand::Find(qmess, key, _) => Some(KVStoreProtoMsg::FIND(qmess, key)),
            KVStoreCommand::FindLocally(_, _) => None,
            KVStoreCommand::Store(qid, vrs) => {
                let mut ws: Vec<SerRef<V, VR>> = Vec::new();
                let ghost all = vrs@;
                for rv in it: vrs
                    invariant
                        it.seq() == all,
                        ws@.len() == it.index(),
                        forall|i: int| 0 <= i < ws@.len() ==> (#[trigger] ws@[i]).0 == all[i],
                {
                    ws.push(SerRef::new(rv));
                }
                assert(refs_in(ws@) =~= all);
                Some(KVStoreProtoMsg::STORE(qid, ws))
            },
            KVStoreCommand::NotFound(qid) => Some(KVStoreProtoMsg::NOT_FOUND(qid)),
            KVStoreCommand::StoreLocally(_, _, _) => None,
        }
    }

    /// The command that the message stands for. A search from the network answers no api request.
    pub fn into(self) -> (c: KVStoreCommand<P, V, VR, M>)
        requires
            self !is PROPAGATE,
        ensures
            says(self, c),
            c.api_id() is None,
    {
        match self {
            KVStoreProtoMsg::FIND(qmes, key) => KVStoreCommand::Find(qmes, key, None),
            KVStoreProtoMsg::STORE(qid, refval) => {
                let mut vs: Vec<VR> = Vec::new();
                let ghost all = refval@;
                for rv in it: refval
                    invariant
                        it.seq() == all,
                        vs@.len() == it.index(),
                        forall|i: int| 0 <= i < vs@.len() ==> #[trigger] vs@[i] == all[i].0,
                {
                    vs.push(rv.0);
                }
                assert(refs_in(all) =~= vs@);
                KVStoreCommand::Store(qid, vs)
            },
            KVStoreProtoMsg::NOT_FOUND(qid) => KVStoreCommand::NotFound(qid),
            KVStoreProtoMsg::PROPAGATE(_, _) => unreached(),
        }
    }
}

} // verus!
