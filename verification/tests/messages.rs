use std::collections::VecDeque;
use storeprop::command::{KVStoreCommand, KVStoreCommandSend};
use storeprop::error::Error;
use storeprop::global::{from_kv, GlobalReply, MyDHTConf, OptPeerGlobalDest, PeerStoreReply, SpawnSend};
use storeprop::keyval::{KeyVal, Peer, Ref, SRef, SToRef, SerRef};
use storeprop::proto::KVStoreProtoMsg;
use storeprop::query::{ApiQueryId, LastSent, PropagateMsg, QueryMsg, StoragePriority};
use storeprop::reply::{KVStoreReply, KVStoreReplySend};

#[derive(Clone, Debug, PartialEq)]
struct Node(u32);

impl KeyVal for Node {
    type Key = u32;
}

impl Peer for Node {
    type Address = String;
}

/// A reference whose sendable form is one more than its value.
#[derive(Clone, Debug, PartialEq)]
struct NodeRef(Node);

#[derive(Debug, PartialEq)]
struct NodeSend(u32);

impl SToRef<NodeRef> for NodeSend {
    fn to_ref(self) -> NodeRef {
        NodeRef(Node(self.0 - 1))
    }
}

impl SRef for NodeRef {
    type Send = NodeSend;

    fn get_sendable(&self) -> NodeSend {
        NodeSend(self.0 .0 + 1)
    }
}

impl Ref<Node> for NodeRef {
    fn new(t: Node) -> Self {
        NodeRef(t)
    }

    fn borrow(&self) -> &Node {
        &self.0
    }
}

type Mode = u8;
type Cmd = KVStoreCommand<Node, Node, NodeRef, Mode>;
type Proto = KVStoreProtoMsg<Node, Node, NodeRef, Mode>;
type PeerReply = PeerStoreReply<Node, NodeRef, Mode>;
type Out = GlobalReply<Node, NodeRef, &'static str, i64, Mode>;

fn r(n: u32) -> NodeRef {
    NodeRef(Node(n))
}

fn msg() -> QueryMsg<Node, Mode> {
    QueryMsg {
        mode_info: 9,
        hop_hist: Some(LastSent::LastSentHop(3, VecDeque::from(vec![1, 2]))),
        storage: StoragePriority(4),
        rem_hop: 5,
        nb_forw: 6,
        prio: 7,
        nb_res: 8,
    }
}

fn is_msg(m: &QueryMsg<Node, Mode>) -> bool {
    let hist = match &m.hop_hist {
        Some(LastSent::LastSentHop(n, ks)) => *n == 3 && *ks == VecDeque::from(vec![1, 2]),
        _ => false,
    };
    m.mode_info == 9
        && hist
        && m.storage == StoragePriority(4)
        && m.rem_hop == 5
        && m.nb_forw == 6
        && m.prio == 7
        && m.nb_res == 8
}

fn all_commands() -> Vec<Cmd> {
    vec![
        KVStoreCommand::Start,
        KVStoreCommand::Find(msg(), 11, Some(ApiQueryId(1))),
        KVStoreCommand::FindLocally(12, ApiQueryId(2)),
        KVStoreCommand::Store(13, vec![r(1), r(2)]),
        KVStoreCommand::NotFound(14),
        KVStoreCommand::StoreLocally(r(3), 15, None),
    ]
}

/// What a command says, in comparable form.
fn shown(c: &Cmd) -> String {
    match c {
        KVStoreCommand::Start => "start".to_string(),
        KVStoreCommand::Find(m, k, a) => format!("find {} {} {:?}", is_msg(m), k, a),
        KVStoreCommand::FindLocally(k, a) => format!("find locally {} {:?}", k, a),
        KVStoreCommand::Store(q, vs) => format!("store {} {:?}", q, vs),
        KVStoreCommand::NotFound(q) => format!("not found {}", q),
        KVStoreCommand::StoreLocally(v, p, a) => format!("store locally {:?} {} {:?}", v, p, a),
    }
}

#[test]
fn searches_and_local_stores_answer_the_api() {
    let repliable: Vec<bool> = all_commands().iter().map(|c| c.is_api_reply()).collect();
    assert_eq!(repliable, vec![false, true, true, false, false, true]);
}

#[test]
fn api_id_is_read() {
    let ids: Vec<Option<ApiQueryId>> = all_commands().iter().map(|c| c.get_api_reply()).collect();
    assert_eq!(
        ids,
        vec![None, Some(ApiQueryId(1)), Some(ApiQueryId(2)), None, None, None]
    );
}

#[test]
fn api_id_is_set_where_the_command_can_answer() {
    for mut c in all_commands() {
        let before = shown(&c);
        c.set_api_reply(ApiQueryId(77));
        if c.is_api_reply() {
            assert_eq!(c.get_api_reply(), Some(ApiQueryId(77)));
        } else {
            assert_eq!(c.get_api_reply(), None);
            assert_eq!(shown(&c), before);
        }
    }
}

#[test]
fn setting_the_api_id_keeps_the_rest() {
    let mut c: Cmd = KVStoreCommand::StoreLocally(r(3), 15, None);
    c.set_api_reply(ApiQueryId(5));
    assert_eq!(shown(&c), "store locally NodeRef(Node(3)) 15 Some(ApiQueryId(5))");
    c.set_api_reply(ApiQueryId(6));
    assert_eq!(c.get_api_reply(), Some(ApiQueryId(6)));
}

#[test]
fn clone_is_the_same_command() {
    for c in all_commands() {
        assert_eq!(shown(&c.clone()), shown(&c));
    }
}

#[test]
fn command_survives_threads() {
    for c in all_commands() {
        assert_eq!(shown(&c.get_sendable().to_ref()), shown(&c));
    }
}

#[test]
fn sendable_command_holds_sendable_references() {
    let c: Cmd = KVStoreCommand::Store(13, vec![r(1), r(2)]);
    match c.get_sendable() {
        KVStoreCommandSend::Store(q, ss) => {
            assert_eq!(q, 13);
            assert_eq!(ss, vec![NodeSend(2), NodeSend(3)]);
        }
        _ => panic!("not a store"),
    }
    let c: Cmd = KVStoreCommand::StoreLocally(r(8), 1, Some(ApiQueryId(4)));
    match c.get_sendable() {
        KVStoreCommandSend::StoreLocally(s, p, a) => {
            assert_eq!((s, p, a), (NodeSend(9), 1, Some(ApiQueryId(4))));
        }
        _ => panic!("not a local store"),
    }
}

#[test]
fn reply_survives_threads() {
    let a = ApiQueryId(3);
    let replies = vec![
        KVStoreReply::FoundApi(Some(r(1)), a),
        KVStoreReply::FoundApi(None, a),
        KVStoreReply::FoundApiMult(vec![r(4), r(5)], a),
        KVStoreReply::Done(a),
    ];
    for reply in replies {
        assert_eq!(reply.get_api_reply(), Some(a));
        let back = reply.clone().get_sendable().to_ref();
        assert_eq!(back.get_api_reply(), Some(a));
        match (reply, back) {
            (KVStoreReply::FoundApi(x, _), KVStoreReply::FoundApi(y, _)) => assert_eq!(x, y),
            (KVStoreReply::FoundApiMult(x, _), KVStoreReply::FoundApiMult(y, _)) => {
                assert_eq!(x, y)
            }
            (KVStoreReply::Done(_), KVStoreReply::Done(_)) => {}
            _ => panic!("another reply came back"),
        }
    }
}

#[test]
fn sendable_reply_holds_sendable_references() {
    let reply = KVStoreReply::FoundApi(Some(r(1)), ApiQueryId(3));
    match reply.get_sendable() {
        KVStoreReplySend::FoundApi(s, a) => {
            assert_eq!(s, Some(NodeSend(2)));
            assert_eq!(a, ApiQueryId(3));
        }
        _ => panic!("not found"),
    }
}

#[test]
fn searches_results_and_misses_cross_the_network() {
    let can: Vec<bool> = all_commands().iter().map(|c| Proto::can_from(c)).collect();
    assert_eq!(can, vec![false, true, false, true, true, false]);
    let does: Vec<bool> = all_commands()
        .into_iter()
        .map(|c| Proto::opt_from(c).is_some())
        .collect();
    assert_eq!(does, can);
}

#[test]
fn command_survives_the_network_without_its_api_id() {
    let mut seen: Vec<String> = Vec::new();
    for c in all_commands() {
        if let Some(m) = Proto::opt_from(c) {
            seen.push(shown(&m.into()));
        }
    }
    assert_eq!(
        seen,
        vec![
            "find true 11 None".to_string(),
            "store 13 [NodeRef(Node(1)), NodeRef(Node(2))]".to_string(),
            "not found 14".to_string(),
        ]
    );
}

#[test]
fn message_survives_command() {
    let m: Proto = KVStoreProtoMsg::STORE(4, vec![SerRef::new(r(6)), SerRef::new(r(7))]);
    match Proto::opt_from(m.into()) {
        Some(KVStoreProtoMsg::STORE(q, ws)) => {
            assert_eq!(q, 4);
            let inside: Vec<NodeRef> = ws.into_iter().map(|w| w.0).collect();
            assert_eq!(inside, vec![r(6), r(7)]);
        }
        _ => panic!("not a store"),
    }
}

#[test]
fn unasked_values_can_be_named() {
    let m: Proto = KVStoreProtoMsg::PROPAGATE(PropagateMsg(2, 3), SerRef::new(r(1)));
    match m {
        KVStoreProtoMsg::PROPAGATE(PropagateMsg(hops, forw), w) => {
            assert_eq!((hops, forw), (2, 3));
            assert_eq!(w.0, r(1));
        }
        _ => panic!("another message"),
    }
}

fn nested() -> PeerReply {
    GlobalReply::Mult(vec![
        GlobalReply::Forward(Some(vec![r(1)]), None, 2, KVStoreCommand::NotFound(3)),
        GlobalReply::NoRep,
        GlobalReply::Mult(vec![
            GlobalReply::Api(KVStoreReply::Done(ApiQueryId(4))),
            GlobalReply::PeerApi(KVStoreReply::Done(ApiQueryId(5))),
            GlobalReply::PeerForward(
                None,
                Some(vec![(6, "addr".to_string())]),
                7,
                KVStoreCommand::Start,
            ),
        ]),
    ])
}

fn outline<GSC, GSR>(g: &GlobalReply<Node, NodeRef, GSC, GSR, Mode>) -> String {
    match g {
        GlobalReply::Forward(_, _, _, _) => "f".to_string(),
        GlobalReply::PeerForward(p, a, n, c) => format!("F{:?}{:?}{}{}", p, a, n, shown(c)),
        GlobalReply::Api(_) => "a".to_string(),
        GlobalReply::PeerApi(k) => format!("A{:?}", k.get_api_reply()),
        GlobalReply::NoRep => "-".to_string(),
        GlobalReply::Mult(gs) => {
            let inner: Vec<String> = gs.iter().map(|x| outline(x)).collect();
            format!("[{}]", inner.join(","))
        }
    }
}

const MARKED: &str = "[FSome([NodeRef(Node(1))])None2not found 3,-,[ASome(ApiQueryId(4)),\
ASome(ApiQueryId(5)),FNoneSome([(6, \"addr\")])7start]]";

#[test]
fn marking_reaches_every_depth() {
    let out: Out = from_kv(nested());
    assert_eq!(outline(&out), MARKED);
}

#[test]
fn marking_twice_is_marking_once() {
    let once: PeerReply = from_kv(nested());
    let twice: Out = from_kv(once);
    assert_eq!(outline(&twice), MARKED);
}

struct Channel {
    sent: Vec<Out>,
    broken: bool,
}

impl SpawnSend<Out> for Channel {
    const CAN_SEND: bool = true;

    fn send(&mut self, c: Out) -> Result<(), Error> {
        if self.broken {
            return Err(Error::Outside("broken".to_string()));
        }
        self.sent.push(c);
        Ok(())
    }
}

struct Conf;

impl MyDHTConf for Conf {
    type Peer = Node;
    type PeerRef = NodeRef;
    type ModeInfo = Mode;
    type GlobalServiceCommand = &'static str;
    type GlobalServiceReply = i64;
    type GlobalDest = Channel;
}

#[test]
fn peer_store_replies_are_sent_marked() {
    let mut dest: OptPeerGlobalDest<Conf> =
        OptPeerGlobalDest(Channel { sent: Vec::new(), broken: false });
    assert!(<OptPeerGlobalDest<Conf> as SpawnSend<PeerReply>>::CAN_SEND);
    assert_eq!(dest.send(nested()), Ok(()));
    assert_eq!(dest.send(GlobalReply::NoRep), Ok(()));
    let lines: Vec<String> = dest.0.sent.iter().map(|g| outline(g)).collect();
    assert_eq!(lines, vec![MARKED.to_string(), "-".to_string()]);
}

#[test]
fn failed_send_is_reported() {
    let mut dest: OptPeerGlobalDest<Conf> =
        OptPeerGlobalDest(Channel { sent: Vec::new(), broken: true });
    assert_eq!(dest.send(nested()), Err(Error::Outside("broken".to_string())));
    assert_eq!(dest.0.sent.len(), 0);
}

#[test]
fn messages_can_be_shown() {
    let m: Proto = KVStoreProtoMsg::NOT_FOUND(4);
    assert_eq!(format!("{:?}", m), "NOT_FOUND(4)");
}
