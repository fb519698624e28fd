use std::cell::Cell;
use std::marker::PhantomData;
use storeprop::answer::{forward_find, forward_not_found, forward_one, forward_store, StoreReply};
use storeprop::cache::QueryTable;
use storeprop::clock::{Clock, LONGEST_SPAN};
use storeprop::command::KVStoreCommand;
use storeprop::error::Error;
use storeprop::global::{GlobalCommand, GlobalReply};
use storeprop::keyval::{CachePolicy, KeyVal, KVStore, OpenStore, Peer, Ref, SRef, SToRef};
use storeprop::proto::KVStoreProtoMsg;
use storeprop::query::{
    ApiQueryId, Dests, ModeInfo, Nanos, NextHop, QReply, Query, QueryCache, QueryID, QueryMode,
    QueryMsg, StoragePriority,
};
use storeprop::reply::KVStoreReply;
use storeprop::rules::DHTRules;
use storeprop::service::{KVStoreService, Onward};

#[derive(Clone, Debug, PartialEq)]
struct Node(u32);

impl KeyVal for Node {
    type Key = u32;
}

impl Peer for Node {
    type Address = u32;
}

#[derive(Clone, Debug, PartialEq)]
struct Val {
    key: u32,
    text: &'static str,
}

impl KeyVal for Val {
    type Key = u32;
}

#[derive(Clone, Debug, PartialEq)]
struct Own<T>(T);

impl<T: Clone> SToRef<Own<T>> for Own<T> {
    fn to_ref(self) -> Own<T> {
        self
    }
}

impl<T: Clone> SRef for Own<T> {
    type Send = Own<T>;

    fn get_sendable(&self) -> Own<T> {
        self.clone()
    }
}

impl<T: Clone> Ref<T> for Own<T> {
    fn new(t: T) -> Self {
        Own(t)
    }

    fn borrow(&self) -> &T {
        &self.0
    }
}

/// The id that the asking node gave, and whether this node gives its own.
#[derive(Clone, Debug, PartialEq)]
struct Way {
    id: QueryID,
    renumber: bool,
    mode: QueryMode,
}

impl ModeInfo<Node, Own<Node>, Rules> for Way {
    fn get_mode(&self) -> QueryMode {
        self.mode
    }

    fn do_store(&self) -> bool {
        self.renumber
    }

    fn get_query_id(&self) -> QueryID {
        self.id
    }

    fn fwd_dests(self, owith: &Option<Own<Node>>) -> Dests<Node, Own<Node>> {
        Dests { peers: owith.clone().map(|w| vec![w]), addrs: None, query: self.id }
    }

    fn to_next_hop(
        msg: QueryMsg<Node, Self>,
        me: &Node,
        qid: QueryID,
        rules: &Rules,
    ) -> NextHop<Node, Self> {
        assert_eq!(*me, Node(1));
        assert_eq!(rules.threshold, 2);
        let mut next = msg;
        let old_mode_info = next.mode_info.clone();
        next.mode_info.id = qid;
        next.rem_hop -= 1;
        NextHop { msg: next, old_mode_info }
    }
}

#[derive(Clone)]
struct Rules {
    keep_local: bool,
    keep_dist: bool,
    report: bool,
    threshold: usize,
    lifetime: Nanos,
}

impl DHTRules for Rules {
    fn do_store(&self, is_local: bool, prio: u8) -> (bool, Option<CachePolicy>) {
        if is_local {
            (self.keep_local, Some(CachePolicy(prio as u128)))
        } else {
            assert_eq!(prio, 0);
            (self.keep_dist, None)
        }
    }

    fn notfoundreply(&self, mode: &QueryMode) -> bool {
        assert_eq!(*mode, QueryMode::AProxy);
        self.report
    }

    fn notfoundtreshold(&self, nb_forw: u8, rem_hop: u8, mode: &QueryMode) -> usize {
        assert_eq!((nb_forw, rem_hop, *mode), (4, 2, QueryMode::AProxy));
        self.threshold
    }

    fn lifetime(&self, prio: u8) -> Nanos {
        assert_eq!(prio, 6);
        self.lifetime
    }
}

struct Store {
    added: Vec<(Val, Option<CachePolicy>)>,
}

impl KVStore<Val> for Store {
    fn add_val(&mut self, v: Val, policy: Option<CachePolicy>) {
        self.added.push((v, policy));
    }

    fn get_val(&self, key: &u32) -> Option<Val> {
        self.added.iter().rev().find(|(v, _)| v.key == *key).map(|(v, _)| v.clone())
    }
}

type Table = QueryTable<Way, Own<Val>, Own<Node>>;
type Init = Box<dyn Fn() -> Result<Store, Error>>;
type Service =
    KVStoreService<Node, Own<Node>, Val, Own<Val>, Store, Rules, Table, Way, Init>;
type Cmd = KVStoreCommand<Node, Val, Own<Val>, Way>;
type Out = StoreReply<Node, Own<Node>, Val, Own<Val>, Way>;

fn rules() -> Rules {
    Rules { keep_local: true, keep_dist: true, report: true, threshold: 2, lifetime: 50 }
}

fn service(rules: Rules) -> Service {
    KVStoreService {
        me: Own(Node(1)),
        init_store: Box::new(|| Ok(Store { added: Vec::new() })),
        store: None,
        dht_rules: rules,
        query_cache: QueryTable::new(100),
        clock: Clock::new(),
        _ph: PhantomData,
    }
}

fn val(key: u32, text: &'static str) -> Own<Val> {
    Own(Val { key, text })
}

fn msg(nb_res: usize, rem_hop: u8) -> QueryMsg<Node, Way> {
    QueryMsg {
        mode_info: Way { id: 31, renumber: true, mode: QueryMode::AProxy },
        hop_hist: None,
        storage: StoragePriority(0),
        rem_hop,
        nb_forw: 4,
        prio: 6,
        nb_res,
    }
}

fn api(n: usize) -> Option<ApiQueryId> {
    Some(ApiQueryId(n))
}

fn show_cmd(c: &Cmd) -> String {
    match c {
        KVStoreCommand::Find(m, k, a) => format!(
            "find key {} id {} hops {} res {} api {:?}",
            k, m.mode_info.id, m.rem_hop, m.nb_res, a
        ),
        KVStoreCommand::Store(q, vs) => {
            let texts: Vec<&str> = vs.iter().map(|v| v.0.text).collect();
            format!("store {} {:?}", q, texts)
        }
        KVStoreCommand::NotFound(q) => format!("not found {}", q),
        _ => "local".to_string(),
    }
}

fn show_out(out: &Out) -> String {
    match out {
        GlobalReply::Forward(p, a, n, c) => {
            assert!(a.is_none());
            assert!(KVStoreProtoMsg::can_from(c));
            assert_eq!(c.get_api_reply(), None);
            let to: Vec<u32> = match p {
                Some(ps) => ps.iter().map(|x| x.0 .0).collect(),
                None => Vec::new(),
            };
            format!("to {:?}+{}: {}", to, n, show_cmd(c))
        }
        GlobalReply::Api(KVStoreReply::FoundApi(o, a)) => {
            format!("api {} one {:?}", a.0, o.as_ref().map(|v| v.0.text))
        }
        GlobalReply::Api(KVStoreReply::FoundApiMult(vs, a)) => {
            let texts: Vec<&str> = vs.iter().map(|v| v.0.text).collect();
            format!("api {} all {:?}", a.0, texts)
        }
        GlobalReply::Api(KVStoreReply::Done(a)) => format!("api {} done", a.0),
        GlobalReply::NoRep => "nothing".to_string(),
        GlobalReply::Mult(outs) => {
            let parts: Vec<String> = outs.iter().map(|o| show_out(o)).collect();
            parts.join(" & ")
        }
        _ => "peer".to_string(),
    }
}

fn run_from(s: &mut Service, with: Option<u32>, c: Cmd, now: Nanos) -> String {
    match s.call_at(GlobalCommand(with.map(|n| Own(Node(n))), c), now) {
        Ok(out) => show_out(&out),
        Err(e) => format!("{:?}", e),
    }
}

fn run(s: &mut Service, c: Cmd) -> String {
    run_from(s, None, c, 1000)
}

fn texts(s: &Service) -> Vec<&'static str> {
    match &s.store {
        Some(store) => store.added.iter().map(|(v, _)| v.text).collect(),
        None => panic!("the store is not open"),
    }
}

/// Asker, expected, results, misses and expiry of a pending query.
fn pending(s: &mut Service, qid: QueryID) -> Option<String> {
    s.query_cache.query_get_mut(&qid).map(|q| {
        let who_res = match &q.1 {
            QReply::Local(a, n, vs, m, p) => {
                let texts: Vec<&str> = vs.iter().map(|v| v.0.text).collect();
                format!("api {} prio {} expects {} has {:?} misses {}", a.0, p, n, texts, m)
            }
            QReply::Dist(w, o, n, vs, m) => {
                let texts: Vec<&str> = vs.iter().map(|v| v.0.text).collect();
                let from = o.as_ref().map(|x| x.0 .0);
                format!("node {:?} id {} expects {} has {:?} misses {}", from, w.id, n, texts, m)
            }
        };
        format!("{} {} until {:?}", q.0, who_res, q.2)
    })
}

#[test]
fn start_opens_the_store_and_answers_nothing() {
    let mut s = service(rules());
    assert!(s.store.is_none());
    assert_eq!(run(&mut s, KVStoreCommand::Start), "nothing");
    assert!(s.store.is_some());
}

#[test]
fn store_is_opened_once() {
    let calls = std::rc::Rc::new(Cell::new(0));
    let seen = calls.clone();
    let mut s = service(rules());
    s.init_store = Box::new(move || {
        seen.set(seen.get() + 1);
        Ok(Store { added: Vec::new() })
    });
    run(&mut s, KVStoreCommand::Start);
    run(&mut s, KVStoreCommand::StoreLocally(val(1, "a"), 3, None));
    run(&mut s, KVStoreCommand::Start);
    assert_eq!(calls.get(), 1);
    assert_eq!(texts(&s), vec!["a"]);
}

struct OpensOnce {
    calls: usize,
}

impl OpenStore<Store> for OpensOnce {
    fn open_store(&mut self) -> Result<Store, Error> {
        self.calls += 1;
        match self.calls {
            1 => Err(Error::Outside("busy".to_string())),
            2 => Ok(Store { added: Vec::new() }),
            _ => Err(Error::Outside("opened before".to_string())),
        }
    }
}

#[test]
fn opener_may_fail_after_it_has_opened() {
    let s = service(rules());
    let mut s = KVStoreService {
        me: s.me,
        init_store: OpensOnce { calls: 0 },
        store: s.store,
        dht_rules: s.dht_rules,
        query_cache: s.query_cache,
        clock: s.clock,
        _ph: s._ph,
    };
    let first: Result<Out, Error> = s.call(GlobalCommand(None, KVStoreCommand::Start));
    assert_eq!(first.err(), Some(Error::Outside("busy".to_string())));
    for _ in 0..3 {
        assert!(s.call(GlobalCommand(None, KVStoreCommand::Start)).is_ok());
        assert_eq!(s.init_store.calls, 2);
    }
}

#[test]
fn failure_to_open_is_the_answer() {
    let mut s = service(rules());
    s.init_store = Box::new(|| Err(Error::Outside("no disk".to_string())));
    let out = run(&mut s, KVStoreCommand::FindLocally(1, ApiQueryId(2)));
    assert_eq!(out, "Outside(\"no disk\")");
    assert!(s.store.is_none());
    s.init_store = Box::new(|| Ok(Store { added: Vec::new() }));
    assert_eq!(run(&mut s, KVStoreCommand::FindLocally(1, ApiQueryId(2))), "api 2 one None");
}

#[test]
fn value_stored_locally_is_found_locally() {
    let mut s = service(rules());
    assert_eq!(run(&mut s, KVStoreCommand::StoreLocally(val(7, "seven"), 3, api(9))), "api 9 done");
    assert_eq!(run(&mut s, KVStoreCommand::FindLocally(7, ApiQueryId(4))), "api 4 one Some(\"seven\")");
    assert_eq!(run(&mut s, KVStoreCommand::FindLocally(8, ApiQueryId(5))), "api 5 one None");
}

#[test]
fn local_value_is_kept_with_the_policy_of_the_rules() {
    let mut s = service(rules());
    assert_eq!(run(&mut s, KVStoreCommand::StoreLocally(val(7, "seven"), 3, None)), "nothing");
    let added = &s.store.as_ref().unwrap().added;
    assert_eq!(added.len(), 1);
    assert_eq!(added[0].1, Some(CachePolicy(3)));
}

#[test]
fn local_value_is_dropped_if_the_rules_say_so() {
    let mut s = service(Rules { keep_local: false, ..rules() });
    assert_eq!(run(&mut s, KVStoreCommand::StoreLocally(val(7, "seven"), 3, api(9))), "api 9 done");
    assert_eq!(texts(&s), Vec::<&str>::new());
}

#[test]
fn answers_to_unknown_queries_are_dropped() {
    let mut s = service(rules());
    assert_eq!(run(&mut s, KVStoreCommand::Store(5, vec![val(1, "a")])), "nothing");
    assert_eq!(run(&mut s, KVStoreCommand::NotFound(5)), "nothing");
    assert_eq!(texts(&s), Vec::<&str>::new());
}

#[test]
fn api_search_goes_on_and_is_recorded() {
    let mut s = service(rules());
    let out = run(&mut s, KVStoreCommand::Find(msg(2, 3), 8, api(5)));
    assert_eq!(out, "to []+4: find key 8 id 100 hops 2 res 2 api None");
    assert_eq!(
        pending(&mut s, 100),
        Some("100 api 5 prio 6 expects 2 has [] misses 2 until Some(1050)".to_string())
    );
}

#[test]
fn api_search_gathers_results_in_order() {
    let mut s = service(rules());
    run(&mut s, KVStoreCommand::Find(msg(3, 3), 8, api(5)));
    assert_eq!(run(&mut s, KVStoreCommand::Store(100, vec![val(8, "a")])), "nothing");
    let out = run(&mut s, KVStoreCommand::Store(100, vec![val(8, "b"), val(8, "c")]));
    assert_eq!(out, "api 5 all [\"a\", \"b\", \"c\"]");
    assert_eq!(texts(&s), vec!["a", "b", "c"]);
    assert_eq!(pending(&mut s, 100), None);
    assert_eq!(run(&mut s, KVStoreCommand::Store(100, vec![val(8, "d")])), "nothing");
    assert_eq!(texts(&s), vec!["a", "b", "c"]);
}

#[test]
fn results_for_the_api_are_kept_with_the_priority_of_the_search() {
    let mut s = service(rules());
    run(&mut s, KVStoreCommand::Find(msg(3, 3), 8, api(5)));
    run(&mut s, KVStoreCommand::Store(100, vec![val(8, "a")]));
    assert_eq!(s.store.as_ref().unwrap().added[0].1, Some(CachePolicy(6)));
}

#[test]
fn more_results_than_expected_go_on_waiting() {
    let mut s = service(rules());
    run(&mut s, KVStoreCommand::Find(msg(1, 3), 8, api(5)));
    let out = run(&mut s, KVStoreCommand::Store(100, vec![val(8, "a"), val(8, "b")]));
    assert_eq!(out, "nothing");
    assert_eq!(run(&mut s, KVStoreCommand::NotFound(100)), "nothing");
    assert_eq!(run(&mut s, KVStoreCommand::NotFound(100)), "api 5 all [\"a\", \"b\"]");
}

#[test]
fn last_miss_ends_the_search() {
    let mut s = service(rules());
    run(&mut s, KVStoreCommand::Find(msg(3, 3), 8, api(5)));
    run(&mut s, KVStoreCommand::Store(100, vec![val(8, "a")]));
    assert_eq!(run(&mut s, KVStoreCommand::NotFound(100)), "nothing");
    assert_eq!(run(&mut s, KVStoreCommand::NotFound(100)), "api 5 all [\"a\"]");
    assert_eq!(pending(&mut s, 100), None);
    assert_eq!(run(&mut s, KVStoreCommand::NotFound(100)), "nothing");
}

#[test]
fn misses_are_ignored_where_none_is_waited_for() {
    let mut s = service(Rules { report: false, ..rules() });
    run(&mut s, KVStoreCommand::Find(msg(3, 3), 8, api(5)));
    let before = pending(&mut s, 100);
    assert_eq!(
        before,
        Some("100 api 5 prio 6 expects 3 has [] misses 0 until Some(1050)".to_string())
    );
    assert_eq!(run(&mut s, KVStoreCommand::NotFound(100)), "nothing");
    assert_eq!(pending(&mut s, 100), before);
}

#[test]
fn search_of_a_node_is_gathered_and_sent_back() {
    let mut s = service(rules());
    let out = run_from(&mut s, Some(77), KVStoreCommand::Find(msg(2, 3), 8, None), 10);
    assert_eq!(out, "to []+4: find key 8 id 100 hops 2 res 2 api None");
    assert_eq!(
        pending(&mut s, 100),
        Some("100 node Some(77) id 31 expects 2 has [] misses 2 until Some(60)".to_string())
    );
    assert_eq!(run(&mut s, KVStoreCommand::Store(100, vec![val(8, "a")])), "nothing");
    let out = run(&mut s, KVStoreCommand::Store(100, vec![val(8, "b")]));
    assert_eq!(out, "to [77]+0: store 31 [\"a\", \"b\"]");
    assert_eq!(pending(&mut s, 100), None);
    assert_eq!(s.store.as_ref().unwrap().added[0].1, None);
}

#[test]
fn results_pass_through_where_misses_are_not_reported() {
    let mut s = service(Rules { report: false, ..rules() });
    run_from(&mut s, Some(77), KVStoreCommand::Find(msg(2, 3), 8, None), 10);
    let out = run(&mut s, KVStoreCommand::Store(100, vec![val(8, "a")]));
    assert_eq!(out, "to [77]+0: store 31 [\"a\"]");
    let out = run(&mut s, KVStoreCommand::Store(100, vec![val(8, "b"), val(8, "c")]));
    assert_eq!(out, "to [77]+0: store 31 [\"b\", \"c\"]");
    assert_eq!(texts(&s), vec!["a", "b", "c"]);
    assert_eq!(
        pending(&mut s, 100),
        Some("100 node Some(77) id 31 expects 2 has [] misses 0 until Some(60)".to_string())
    );
}

#[test]
fn results_for_a_node_are_dropped_if_the_rules_say_so() {
    let mut s = service(Rules { keep_dist: false, ..rules() });
    run_from(&mut s, Some(77), KVStoreCommand::Find(msg(1, 3), 8, None), 10);
    let out = run(&mut s, KVStoreCommand::Store(100, vec![val(8, "a")]));
    assert_eq!(out, "to [77]+0: store 31 [\"a\"]");
    assert_eq!(texts(&s), Vec::<&str>::new());
}

#[test]
fn node_is_told_that_nothing_was_found() {
    let mut s = service(rules());
    run_from(&mut s, Some(77), KVStoreCommand::Find(msg(2, 3), 8, None), 10);
    assert_eq!(run(&mut s, KVStoreCommand::NotFound(100)), "nothing");
    assert_eq!(run(&mut s, KVStoreCommand::NotFound(100)), "to [77]+0: not found 31");
}

#[test]
fn node_gets_what_was_gathered_at_the_last_miss() {
    let mut s = service(rules());
    run_from(&mut s, Some(77), KVStoreCommand::Find(msg(2, 3), 8, None), 10);
    run(&mut s, KVStoreCommand::Store(100, vec![val(8, "a")]));
    run(&mut s, KVStoreCommand::NotFound(100));
    assert_eq!(run(&mut s, KVStoreCommand::NotFound(100)), "to [77]+0: store 31 [\"a\"]");
}

#[test]
fn node_is_told_nothing_where_misses_are_no_longer_reported() {
    let mut s = service(rules());
    run_from(&mut s, Some(77), KVStoreCommand::Find(msg(2, 3), 8, None), 10);
    s.dht_rules.report = false;
    run(&mut s, KVStoreCommand::NotFound(100));
    assert_eq!(run(&mut s, KVStoreCommand::NotFound(100)), "nothing");
    assert_eq!(pending(&mut s, 100), None);
}

#[test]
fn search_ends_where_the_last_result_is_found() {
    let mut s = service(rules());
    run(&mut s, KVStoreCommand::StoreLocally(val(8, "here"), 3, None));
    let out = run(&mut s, KVStoreCommand::Find(msg(1, 3), 8, api(5)));
    assert_eq!(out, "api 5 one Some(\"here\")");
    let out = run_from(&mut s, Some(77), KVStoreCommand::Find(msg(1, 3), 8, None), 10);
    assert_eq!(out, "to [77]+0: store 31 [\"here\"]");
    assert_eq!(pending(&mut s, 100), None);
}

#[test]
fn search_ends_where_no_hop_is_left() {
    let mut s = service(rules());
    let out = run(&mut s, KVStoreCommand::Find(msg(2, 0), 8, api(5)));
    assert_eq!(out, "api 5 one None");
    let out = run_from(&mut s, Some(77), KVStoreCommand::Find(msg(2, 0), 8, None), 10);
    assert_eq!(out, "to [77]+0: not found 31");
    run(&mut s, KVStoreCommand::StoreLocally(val(8, "here"), 3, None));
    let out = run_from(&mut s, Some(77), KVStoreCommand::Find(msg(2, 0), 8, None), 10);
    assert_eq!(out, "to [77]+0: store 31 [\"here\"]");
    assert_eq!(pending(&mut s, 100), None);
}

#[test]
fn missed_search_without_hops_is_silent_where_misses_are_not_reported() {
    let mut s = service(Rules { report: false, ..rules() });
    assert_eq!(run(&mut s, KVStoreCommand::Find(msg(2, 0), 8, api(5))), "nothing");
    assert_eq!(run(&mut s, KVStoreCommand::Find(msg(0, 3), 8, api(5))), "nothing");
}

#[test]
fn value_found_on_the_way_waits_for_the_rest() {
    let mut s = service(rules());
    run(&mut s, KVStoreCommand::StoreLocally(val(8, "here"), 3, None));
    let out = run(&mut s, KVStoreCommand::Find(msg(3, 3), 8, api(5)));
    assert_eq!(out, "to []+4: find key 8 id 100 hops 2 res 2 api None");
    assert_eq!(
        pending(&mut s, 100),
        Some("100 api 5 prio 6 expects 2 has [\"here\"] misses 2 until Some(1050)".to_string())
    );
    assert_eq!(
        run(&mut s, KVStoreCommand::Store(100, vec![val(8, "there")])),
        "api 5 all [\"here\", \"there\"]"
    );
}

#[test]
fn value_found_on_the_way_is_sent_back_where_misses_are_not_reported() {
    let mut s = service(Rules { report: false, ..rules() });
    run(&mut s, KVStoreCommand::StoreLocally(val(8, "here"), 3, None));
    let out = run_from(&mut s, Some(77), KVStoreCommand::Find(msg(3, 3), 8, None), 10);
    assert_eq!(
        out,
        "to [77]+0: store 31 [\"here\"] & to []+4: find key 8 id 100 hops 2 res 2 api None"
    );
    assert_eq!(
        pending(&mut s, 100),
        Some("100 node Some(77) id 31 expects 2 has [] misses 0 until Some(60)".to_string())
    );
}

#[test]
fn search_keeps_its_id_where_the_mode_says_so() {
    let mut s = service(rules());
    let mut m = msg(2, 3);
    m.mode_info.renumber = false;
    let out = run(&mut s, KVStoreCommand::Find(m, 8, api(5)));
    assert_eq!(out, "to []+4: find key 8 id 31 hops 2 res 2 api None");
    assert!(pending(&mut s, 31).is_some());
    assert_eq!(pending(&mut s, 100), None);
}

#[test]
fn searches_and_misses_leave_the_store() {
    let mut s = service(rules());
    run(&mut s, KVStoreCommand::StoreLocally(val(8, "here"), 3, None));
    run(&mut s, KVStoreCommand::Find(msg(3, 3), 8, api(5)));
    run(&mut s, KVStoreCommand::FindLocally(8, ApiQueryId(6)));
    run(&mut s, KVStoreCommand::NotFound(100));
    run(&mut s, KVStoreCommand::NotFound(100));
    run(&mut s, KVStoreCommand::Start);
    assert_eq!(texts(&s), vec!["here"]);
}

#[test]
fn queries_do_not_interfere() {
    let mut s = service(rules());
    run(&mut s, KVStoreCommand::Find(msg(2, 3), 8, api(5)));
    run(&mut s, KVStoreCommand::Find(msg(2, 3), 9, api(6)));
    let other = pending(&mut s, 101);
    assert!(other.is_some());
    run(&mut s, KVStoreCommand::Store(100, vec![val(8, "a")]));
    run(&mut s, KVStoreCommand::NotFound(100));
    assert_eq!(pending(&mut s, 101), other);
    assert_eq!(
        pending(&mut s, 100),
        Some("100 api 5 prio 6 expects 2 has [\"a\"] misses 1 until Some(1050)".to_string())
    );
}

#[test]
fn queries_stay_under_their_ids() {
    let mut s = service(rules());
    run(&mut s, KVStoreCommand::Find(msg(3, 3), 8, api(5)));
    let mut kept = msg(3, 3);
    kept.mode_info.renumber = false;
    run(&mut s, KVStoreCommand::Find(kept, 9, api(6)));
    run(&mut s, KVStoreCommand::Store(31, vec![val(9, "a")]));
    run(&mut s, KVStoreCommand::NotFound(100));
    for id in [100, 31] {
        match s.query_cache.query_get_mut(&id) {
            Some(q) => {
                assert_eq!(q.0, id);
                assert_eq!(q.2, Some(1050));
            }
            None => panic!("not recorded"),
        }
    }
}

#[test]
fn search_for_no_result_that_finds_one_is_refused() {
    let mut s = service(rules());
    run(&mut s, KVStoreCommand::StoreLocally(val(8, "here"), 3, None));
    assert_eq!(run(&mut s, KVStoreCommand::Find(msg(0, 3), 8, api(5))), "NoResultExpected");
    assert_eq!(run(&mut s, KVStoreCommand::Find(msg(0, 3), 9, api(5))), "api 5 one None");
}

#[test]
fn search_that_cannot_be_dated_is_refused() {
    let mut s = service(Rules { lifetime: u128::MAX - 5, ..rules() });
    let out = run_from(&mut s, None, KVStoreCommand::Find(msg(2, 3), 8, api(5)), 6);
    assert_eq!(out, "ExpireOutOfRange");
    assert_eq!(pending(&mut s, 100), None);
    let out = run_from(&mut s, None, KVStoreCommand::Find(msg(2, 3), 8, api(5)), 5);
    assert_eq!(out, "to []+4: find key 8 id 101 hops 2 res 2 api None");
}

#[test]
fn search_that_lives_as_long_as_a_clock_can_show_is_dated() {
    let mut s = service(Rules { lifetime: LONGEST_SPAN, ..rules() });
    let out =
        run_from(&mut s, None, KVStoreCommand::Find(msg(2, 3), 8, api(5)), LONGEST_SPAN);
    assert_eq!(out, "to []+4: find key 8 id 100 hops 2 res 2 api None");
    match s.query_cache.query_get_mut(&100) {
        Some(q) => assert_eq!(q.2, Some(36_893_488_147_419_103_231_999_999_998)),
        None => panic!("not recorded"),
    }
    assert_eq!(LONGEST_SPAN, std::time::Duration::MAX.as_nanos());
}

#[test]
fn clock_counts_nanoseconds() {
    let outer = std::time::Instant::now();
    let clock = Clock::new();
    let inner = std::time::Instant::now();
    let mut before: Nanos = 0;
    while before < 2_000_000 {
        before = inner.elapsed().as_nanos();
    }
    let shown = clock.now();
    assert!(before <= shown);
    assert!(shown <= outer.elapsed().as_nanos());
}

#[test]
fn command_is_carried_out_at_the_time_of_the_clock() {
    let mut s = service(rules());
    let before = s.clock.now();
    let out = s.call(GlobalCommand(None, KVStoreCommand::Find(msg(2, 3), 8, api(5))));
    let after = s.clock.now();
    match out {
        Ok(o) => assert_eq!(show_out(&o), "to []+4: find key 8 id 100 hops 2 res 2 api None"),
        Err(_) => panic!("refused"),
    }
    match s.query_cache.query_get_mut(&100) {
        Some(q) => {
            let expire = q.2.unwrap();
            assert!(before + 50 <= expire);
            assert!(expire <= after + 50);
        }
        None => panic!("not recorded"),
    }
}

#[test]
fn search_is_dated_after_the_store_is_open() {
    let mut s = service(rules());
    s.init_store = Box::new(|| {
        let start = std::time::Instant::now();
        while start.elapsed().as_nanos() < 5_000_000 {}
        Ok(Store { added: Vec::new() })
    });
    let before = s.clock.now();
    let out = s.call(GlobalCommand(None, KVStoreCommand::Find(msg(2, 3), 8, api(5))));
    assert!(out.is_ok());
    match s.query_cache.query_get_mut(&100) {
        Some(q) => assert!(before + 5_000_050 <= q.2.unwrap()),
        None => panic!("not recorded"),
    }
}

#[test]
fn ids_are_drawn_only_for_searches_that_go_on() {
    let mut s = service(rules());
    s.init_store = Box::new(|| Err(Error::Outside("no disk".to_string())));
    run(&mut s, KVStoreCommand::Find(msg(2, 3), 8, api(5)));
    s.init_store = Box::new(|| Ok(Store { added: Vec::new() }));
    run(&mut s, KVStoreCommand::Start);
    run(&mut s, KVStoreCommand::StoreLocally(val(8, "here"), 3, api(5)));
    run(&mut s, KVStoreCommand::FindLocally(8, ApiQueryId(6)));
    run(&mut s, KVStoreCommand::Find(msg(2, 0), 9, api(5)));
    run(&mut s, KVStoreCommand::Find(msg(1, 3), 8, api(5)));
    run(&mut s, KVStoreCommand::Find(msg(0, 3), 8, api(5)));
    run(&mut s, KVStoreCommand::Store(70, vec![val(9, "late")]));
    run(&mut s, KVStoreCommand::NotFound(70));
    let out = run(&mut s, KVStoreCommand::Find(msg(2, 3), 9, api(5)));
    assert_eq!(out, "to []+4: find key 9 id 100 hops 2 res 2 api None");
    run(&mut s, KVStoreCommand::Store(100, vec![val(9, "a")]));
    run(&mut s, KVStoreCommand::NotFound(100));
    let out = run(&mut s, KVStoreCommand::Find(msg(2, 3), 7, api(5)));
    assert_eq!(out, "to []+4: find key 7 id 101 hops 2 res 2 api None");
}

#[test]
fn store_answer_can_be_given() {
    let mut s = service(rules());
    let v = Val { key: 8, text: "given" };
    match s.find_from(None, msg(1, 3), 8, api(5), 10, Some(v)) {
        Ok(o) => assert_eq!(show_out(&o), "api 5 one Some(\"given\")"),
        Err(_) => panic!("refused"),
    }
}

#[test]
fn rule_can_be_given() {
    let mut store = Store { added: Vec::new() };
    let vs = vec![val(1, "a"), val(2, "b")];
    Service::keep_as(&mut store, &vs, (false, None));
    assert_eq!(store.added.len(), 0);
    Service::keep_as(&mut store, &vs, (true, Some(CachePolicy(9))));
    assert_eq!(
        store.added,
        vec![
            (Val { key: 1, text: "a" }, Some(CachePolicy(9))),
            (Val { key: 2, text: "b" }, Some(CachePolicy(9))),
        ]
    );
}

#[test]
fn report_can_be_given() {
    let way = Way { id: 31, renumber: true, mode: QueryMode::Asynch };
    let with = Some(Own(Node(77)));
    assert_eq!(show_out(&Service::answer_empty(&with, way.clone(), None, false)), "nothing");
    assert_eq!(
        show_out(&Service::answer_empty(&with, way.clone(), None, true)),
        "to [77]+0: not found 31"
    );
    assert_eq!(show_out(&Service::answer_empty(&with, way.clone(), api(2), true)), "api 2 one None");
    assert_eq!(
        show_out(&Service::answer_one(&with, way.clone(), None, val(1, "a"))),
        "to [77]+0: store 31 [\"a\"]"
    );
    assert_eq!(
        show_out(&Service::answer_one(&with, way, api(2), val(1, "a"))),
        "api 2 one Some(\"a\")"
    );
}

fn onward(report: bool) -> Onward<Node, Way> {
    let mut next = msg(2, 1);
    next.mode_info.id = 55;
    Onward {
        qid: 55,
        msg: next,
        old_mode_info: Way { id: 31, renumber: true, mode: QueryMode::AProxy },
        report,
        nb_not_found: 3,
    }
}

#[test]
fn record_of_a_search() {
    let with = Some(Own(Node(77)));
    let (q, rest) = Service::open_query(&onward(true), &with, api(5), 99, Some(val(8, "a")));
    assert!(rest.is_none());
    assert_eq!(q.0, 55);
    assert_eq!(q.2, Some(99));
    match q.1 {
        QReply::Local(a, n, vs, m, p) => {
            assert_eq!((a, n, m, p), (ApiQueryId(5), 2, 3, 6));
            assert_eq!(vs, vec![val(8, "a")]);
        }
        _ => panic!("not for the api"),
    }
    let (q, rest) = Service::open_query(&onward(false), &with, None, 99, Some(val(8, "a")));
    assert_eq!(rest, Some(val(8, "a")));
    match q.1 {
        QReply::Dist(w, o, n, vs, m) => {
            assert_eq!((w.id, o, n, m), (31, with, 2, 3));
            assert_eq!(vs, Vec::<Own<Val>>::new());
        }
        _ => panic!("not for a node"),
    }
}

#[test]
fn search_is_sent_on() {
    let with = Some(Own(Node(77)));
    let out: Out = Service::send_on(onward(false), &with, 8, Some(val(8, "a")));
    assert_eq!(
        show_out(&out),
        "to [77]+0: store 31 [\"a\"] & to []+4: find key 8 id 55 hops 1 res 2 api None"
    );
    let out: Out = Service::send_on(onward(true), &with, 8, None);
    assert_eq!(show_out(&out), "to []+4: find key 8 id 55 hops 1 res 2 api None");
}

#[test]
fn answers_that_are_sent_out() {
    let d = || Dests { peers: Some(vec![Own(Node(4))]), addrs: None, query: 12 };
    let out: Out = forward_store(d(), vec![val(1, "a"), val(2, "b")]);
    assert_eq!(show_out(&out), "to [4]+0: store 12 [\"a\", \"b\"]");
    let out: Out = forward_one(d(), val(1, "a"));
    assert_eq!(show_out(&out), "to [4]+0: store 12 [\"a\"]");
    let out: Out = forward_not_found(d());
    assert_eq!(show_out(&out), "to [4]+0: not found 12");
    let out: Out = forward_find(msg(2, 3), 8);
    assert_eq!(show_out(&out), "to []+4: find key 8 id 31 hops 3 res 2 api None");
}

#[test]
fn gathered_results_go_to_the_asker() {
    let way = Way { id: 31, renumber: true, mode: QueryMode::AProxy };
    let q = Query(1, QReply::Dist(way, Some(Own(Node(7))), 9, vec![val(1, "a")], 0), None);
    assert_eq!(show_out(&Service::answer_asker(q)), "to [7]+0: store 31 [\"a\"]");
    let q = Query(1, QReply::Local(ApiQueryId(3), 9, vec![val(1, "a")], 0, 0), None);
    assert_eq!(show_out(&Service::answer_asker(q)), "api 3 all [\"a\"]");
}

#[test]
fn query_counts_results_and_misses() {
    let mut q: Query<Way, Own<Val>, Own<Node>> =
        Query(1, QReply::Local(ApiQueryId(3), 2, Vec::new(), 2, 0), None);
    assert!(!q.gain(vec![val(1, "a")]));
    assert!(q.gain(vec![val(1, "b")]));
    assert!(!q.gain(vec![val(1, "c")]));
    assert!(!q.miss());
    assert!(q.miss());
    assert!(!q.miss());
    match q.1 {
        QReply::Local(_, n, vs, m, _) => {
            assert_eq!((n, m), (2, 0));
            assert_eq!(vs, vec![val(1, "a"), val(1, "b"), val(1, "c")]);
        }
        _ => panic!("not for the api"),
    }
}

#[test]
fn table_holds_queries_by_id() {
    let mut t: Table = QueryTable::new(usize::MAX);
    assert_eq!(t.new_id(), usize::MAX);
    assert_eq!(t.new_id(), 0);
    assert_eq!(t.new_id(), 1);
    t.query_add(4, Query(4, QReply::Local(ApiQueryId(1), 1, Vec::new(), 0, 0), None));
    t.query_add(4, Query(4, QReply::Local(ApiQueryId(2), 1, Vec::new(), 0, 0), Some(3)));
    assert!(t.query_get_mut(&5).is_none());
    assert!(t.query_remove(&5).is_none());
    assert_eq!(t.query_get_mut(&4).map(|q| q.2), Some(Some(3)));
    match t.query_remove(&4) {
        Some(Query(id, QReply::Local(a, _, _, _, _), _)) => assert_eq!((id, a), (4, ApiQueryId(2))),
        _ => panic!("not there"),
    }
    assert!(t.query_get_mut(&4).is_none());
}
