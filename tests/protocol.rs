use chord_node::endpoints::{
    get_finger_table, get_local, get_network, get_node_info, get_precessor, get_successor,
    helloworld, post_sim_crash, post_sim_recover, put_local, put_precessor, put_successor,
};
use chord_node::finger_table::{calculate_finger_table, sample_finger_table};
use chord_node::key_value::{get_storage, put_storage};
use chord_node::membership::{
    get_network_longest_range, get_network_request_join, post_network_longest_range, JoinNetwork,
    put_network_initialize, put_network_join, put_network_leave,
};
use chord_node::node_config::{
    check_if_node_is_connected, decimal_text, JoinNetworkInformation, Network, Node, NodeConfig, NodeError,
};
use chord_node::peer::{PeerCall, PeerReply, PeerRequest, Progress, WriteOperations};
use chord_node::ring::{key_to_location, RING_SIZE};
use chord_node::router::{resolve, Route};

fn node(hostname: &str, port: u16, position: u16, range: u32) -> Node {
    Node { hostname: hostname.to_string(), port, position, range }
}

fn find(ring: &[NodeConfig], call: &PeerCall) -> Option<usize> {
    ring.iter()
        .position(|c| c.local.hostname == call.hostname && c.local.port == call.port)
}

/// Answers a call the way the addressed node's inbound handler would.
fn deliver(ring: &mut Vec<NodeConfig>, call: PeerCall) -> PeerReply {
    let i = match find(ring, &call) {
        Some(i) => i,
        None => return PeerReply::Unreachable,
    };
    match call.request {
        PeerRequest::GetSuccessor => match get_successor(&ring[i]) {
            Ok(Some(n)) => PeerReply::Member(n),
            _ => PeerReply::Unreachable,
        },
        PeerRequest::GetLocal => match get_local(&ring[i]) {
            Ok(n) => PeerReply::Member(n),
            Err(_) => PeerReply::Unreachable,
        },
        PeerRequest::GetJoinInformation => match get_network_request_join(&ring[i]) {
            Progress::Done(Ok(info)) => PeerReply::JoinInformation(info),
            Progress::Done(Err(_)) => PeerReply::Unreachable,
            Progress::Pending(query, next) => {
                let reply = deliver(ring, next);
                match query.complete(reply) {
                    Ok(info) => PeerReply::JoinInformation(info),
                    Err(_) => PeerReply::Unreachable,
                }
            }
        },
        PeerRequest::PostLongestRange { started_by } => {
            match post_network_longest_range(&ring[i], started_by) {
                Progress::Done(Ok(n)) => PeerReply::Member(n),
                Progress::Done(Err(_)) => PeerReply::Unreachable,
                Progress::Pending(relay, next) => {
                    let reply = deliver(ring, next);
                    match relay.complete(reply) {
                        Ok(n) => PeerReply::Member(n),
                        Err(_) => PeerReply::Unreachable,
                    }
                }
            }
        }
        PeerRequest::PutSuccessor { node } => match put_successor(&mut ring[i], node) {
            Ok(()) => PeerReply::Acknowledged,
            Err(_) => PeerReply::Unreachable,
        },
        PeerRequest::PutPrecessor { node } => match put_precessor(&mut ring[i], node) {
            Ok(()) => PeerReply::Acknowledged,
            Err(_) => PeerReply::Unreachable,
        },
        PeerRequest::GetValue { key } => match get_storage(&ring[i], &key) {
            Progress::Done(Ok(v)) => PeerReply::Value(v),
            Progress::Done(Err(NodeError::KeyNotFound)) => PeerReply::NotFound,
            Progress::Done(Err(_)) => PeerReply::Unreachable,
            Progress::Pending(read, next) => {
                let reply = deliver(ring, next);
                match read.complete(reply) {
                    Ok(v) => PeerReply::Value(v),
                    Err(NodeError::KeyNotFound) => PeerReply::NotFound,
                    Err(_) => PeerReply::Unreachable,
                }
            }
        },
        PeerRequest::PutValue { key, value } => match put_storage(&mut ring[i], &key, &value) {
            Progress::Done(Ok(_)) => PeerReply::Acknowledged,
            Progress::Done(Err(_)) => PeerReply::Unreachable,
            Progress::Pending(write, next) => {
                let reply = deliver(ring, next);
                match write.complete(reply) {
                    Ok(_) => PeerReply::Acknowledged,
                    Err(_) => PeerReply::Unreachable,
                }
            }
        },
    }
}

fn join(ring: &mut Vec<NodeConfig>, joiner: usize, via: usize) -> Result<Network, NodeError> {
    let hostname = ring[via].local.hostname.clone();
    let port = ring[via].local.port;
    let mut progress = put_network_join(&ring[joiner], hostname, port);
    loop {
        match progress {
            Progress::Done(r) => return r,
            Progress::Pending(state, call) => {
                let reply = deliver(ring, call);
                progress = state.step(&mut ring[joiner], reply);
            }
        }
    }
}

fn leave(ring: &mut Vec<NodeConfig>, leaver: usize) -> Result<Network, NodeError> {
    let mut progress = put_network_leave(&ring[leaver]);
    loop {
        match progress {
            Progress::Done(r) => return r,
            Progress::Pending(state, call) => {
                let reply = deliver(ring, call);
                progress = state.step(&mut ring[leaver], reply);
            }
        }
    }
}

fn rebuild_fingers(ring: &mut Vec<NodeConfig>, at: usize, size: u16) -> Result<(), NodeError> {
    let mut progress = calculate_finger_table(&mut ring[at], size);
    loop {
        match progress {
            Progress::Done(r) => return r,
            Progress::Pending(walk, call) => {
                let reply = deliver(ring, call);
                progress = walk.step(&mut ring[at], reply);
            }
        }
    }
}

fn get(ring: &mut Vec<NodeConfig>, at: usize, key: &str) -> Result<String, NodeError> {
    match get_storage(&ring[at], key) {
        Progress::Done(r) => r,
        Progress::Pending(read, call) => {
            let reply = deliver(ring, call);
            read.complete(reply)
        }
    }
}

fn put(ring: &mut Vec<NodeConfig>, at: usize, key: &str, value: &str) -> Result<String, NodeError> {
    match put_storage(&mut ring[at], key, value) {
        Progress::Done(r) => r,
        Progress::Pending(write, call) => {
            let reply = deliver(ring, call);
            write.complete(reply)
        }
    }
}

fn two_node_ring() -> Vec<NodeConfig> {
    let mut ring = vec![
        NodeConfig::new("a".to_string(), 8000),
        NodeConfig::new("b".to_string(), 8001),
    ];
    put_network_initialize(&mut ring[0], "net-1".to_string()).unwrap();
    join(&mut ring, 1, 0).unwrap();
    ring
}

#[test]
fn new_node_is_disconnected() {
    let c = NodeConfig::new("a".to_string(), 8000);
    assert!(!c.connected);
    assert!(!c.is_crashed());
    assert_eq!(c.local, node("a", 8000, 0, 0));
    assert_eq!(check_if_node_is_connected(&c), Err(NodeError::NotConnected));
    assert_eq!(get_successor(&c), Ok(None));
    assert_eq!(get_precessor(&c), Ok(None));
}

#[test]
fn initialize_makes_singleton_ring() {
    let mut c = NodeConfig::new("a".to_string(), 8000);
    let network = put_network_initialize(&mut c, "net-1".to_string()).unwrap();
    assert_eq!(network.network_id, "net-1");
    assert!(c.connected);
    assert_eq!(check_if_node_is_connected(&c), Ok(()));
    assert_eq!(c.local, node("a", 8000, 0, RING_SIZE));
    assert_eq!(c.successor, Some(node("a", 8000, 0, RING_SIZE)));
    assert_eq!(c.precessor, Some(node("a", 8000, 0, RING_SIZE)));
    assert_eq!(
        put_network_initialize(&mut c, "net-2".to_string()),
        Err(NodeError::AlreadyConnected)
    );
}

#[test]
fn singleton_put_then_get() {
    let mut ring = vec![NodeConfig::new("a".to_string(), 8000)];
    put_network_initialize(&mut ring[0], "net-1".to_string()).unwrap();
    assert_eq!(put(&mut ring, 0, "key", "stored_value"), Ok("stored_value".to_string()));
    assert_eq!(get(&mut ring, 0, "key"), Ok("stored_value".to_string()));
    assert_eq!(get(&mut ring, 0, "absent"), Err(NodeError::KeyNotFound));
}

#[test]
fn join_splits_the_ring_in_half() {
    let ring = two_node_ring();
    let a = &ring[0];
    let b = &ring[1];
    assert_eq!(b.local.position, 32768);
    assert_eq!(a.local.range, 32768);
    assert_eq!(b.local.range, 32768);
    assert!(b.connected);
    assert_eq!(b.network, Some(Network { network_id: "net-1".to_string() }));
    assert_eq!(a.successor.as_ref().unwrap().hostname, "b");
    assert_eq!(a.precessor.as_ref().unwrap().hostname, "b");
    assert_eq!(b.successor.as_ref().unwrap().hostname, "a");
    assert_eq!(b.precessor.as_ref().unwrap().hostname, "a");
}

#[test]
fn leave_restores_singleton() {
    let mut ring = two_node_ring();
    let left = leave(&mut ring, 1).unwrap();
    assert_eq!(left.network_id, "net-1");
    let a = &ring[0];
    assert_eq!(a.successor, Some(node("a", 8000, 0, 32768)));
    assert_eq!(a.precessor, Some(node("a", 8000, 0, 32768)));
    assert_eq!(a.local.range, RING_SIZE);
    let b = &ring[1];
    assert!(!b.connected);
    assert_eq!(b.network, None);
    assert_eq!(b.successor, None);
    assert_eq!(b.precessor, None);
    assert_eq!(b.local, node("b", 8001, 0, 0));
    assert_eq!(leave(&mut ring, 1), Err(NodeError::NotConnected));
}

#[test]
fn keys_are_routed_between_two_nodes() {
    let mut ring = two_node_ring();
    // "key" sits at 0xa62f, in b's arc [32768, 65536)
    assert_eq!(key_to_location("key"), 0xa62f);
    assert_eq!(resolve(&ring[0], 0xa62f), Ok(Route::Forward(ring[0].successor.clone().unwrap())));
    assert_eq!(resolve(&ring[1], 0xa62f), Ok(Route::Local));
    assert_eq!(put(&mut ring, 0, "key", "v"), Ok("v".to_string()));
    assert_eq!(ring[0].storage.retrieve("key"), None);
    assert_eq!(ring[1].storage.retrieve("key"), Some("v".to_string()));
    assert_eq!(get(&mut ring, 0, "key"), Ok("v".to_string()));
    assert_eq!(get(&mut ring, 1, "key"), Ok("v".to_string()));
}

#[test]
fn third_node_takes_half_of_longest_arc() {
    let mut ring = two_node_ring();
    ring.push(NodeConfig::new("c".to_string(), 8002));
    join(&mut ring, 2, 0).unwrap();
    // both arcs are 32768 long; the tie goes upstream, so the holder is a
    let c = &ring[2];
    assert_eq!(c.local.position, 16384);
    assert_eq!(c.local.range, 16384);
    assert_eq!(ring[0].local.range, 16384);
    assert_eq!(ring[0].successor.as_ref().unwrap().hostname, "c");
    assert_eq!(ring[1].precessor.as_ref().unwrap().hostname, "c");
    assert_eq!(c.precessor.as_ref().unwrap().hostname, "a");
    assert_eq!(c.successor.as_ref().unwrap().hostname, "b");
}

#[test]
fn longest_range_query_around_ring() {
    let mut ring = two_node_ring();
    ring.push(NodeConfig::new("c".to_string(), 8002));
    join(&mut ring, 2, 0).unwrap();
    let holder = match get_network_longest_range(&ring[0]) {
        Progress::Pending(query, call) => {
            let reply = deliver(&mut ring, call);
            query.complete(reply).unwrap()
        }
        Progress::Done(_) => panic!("expected a relayed query"),
    };
    assert_eq!(holder.hostname, "b");
    assert_eq!(holder.range, 32768);
    let me = ring[1].local.clone();
    assert!(matches!(post_network_longest_range(&ring[1], me.clone()), Progress::Done(Ok(m)) if m == me));
}

#[test]
fn join_information_of_singleton() {
    let mut ring = vec![NodeConfig::new("a".to_string(), 8000)];
    put_network_initialize(&mut ring[0], "net-1".to_string()).unwrap();
    let reply = deliver(
        &mut ring,
        PeerCall { hostname: "a".to_string(), port: 8000, request: PeerRequest::GetJoinInformation },
    );
    assert_eq!(
        reply,
        PeerReply::JoinInformation(JoinNetworkInformation {
            network: Network { network_id: "net-1".to_string() },
            holder: node("a", 8000, 0, RING_SIZE),
        })
    );
}

#[test]
fn join_fails_when_network_full() {
    let mut ring = vec![
        NodeConfig::new("a".to_string(), 8000),
        NodeConfig::new("b".to_string(), 8001),
    ];
    put_network_initialize(&mut ring[0], "net-1".to_string()).unwrap();
    ring[0].local.range = 1;
    ring[0].successor = Some(ring[0].local.clone());
    ring[0].precessor = Some(ring[0].local.clone());
    assert_eq!(join(&mut ring, 1, 0), Err(NodeError::NetworkFull));
    assert!(!ring[1].connected);
}

#[test]
fn join_fails_when_peer_unreachable() {
    let mut ring = vec![NodeConfig::new("b".to_string(), 8001)];
    let progress = put_network_join(&ring[0], "nowhere".to_string(), 1);
    let (state, call) = match progress {
        Progress::Pending(s, c) => (s, c),
        Progress::Done(_) => panic!("expected a call"),
    };
    assert_eq!(call.request, PeerRequest::GetJoinInformation);
    let reply = deliver(&mut ring, call);
    assert_eq!(reply, PeerReply::Unreachable);
    match state.step(&mut ring[0], reply) {
        Progress::Done(r) => assert_eq!(r, Err(NodeError::PeerUnreachable)),
        Progress::Pending(..) => panic!("join should stop"),
    }
    match put_network_join(&ring[0], "a".to_string(), 1) {
        Progress::Pending(state, _) => match state.step(&mut ring[0], PeerReply::Malformed) {
            Progress::Done(r) => assert_eq!(r, Err(NodeError::MalformedPeerResponse)),
            Progress::Pending(..) => panic!("join should stop"),
        },
        Progress::Done(_) => panic!("expected a call"),
    }
    assert!(!ring[0].connected);
}

#[test]
fn crash_gates_every_entry_point() {
    let mut ring = two_node_ring();
    post_sim_crash(&mut ring[0]);
    assert!(ring[0].is_crashed());
    let c = &mut ring[0];
    let unavailable = NodeError::NodeUnavailable;
    post_sim_crash(c);
    assert!(c.is_crashed());
    assert_eq!(helloworld(c), Err(unavailable));
    assert_eq!(get_local(c), Err(unavailable));
    assert_eq!(get_successor(c), Err(unavailable));
    assert_eq!(get_precessor(c), Err(unavailable));
    assert_eq!(get_finger_table(c).unwrap_err(), unavailable);
    assert_eq!(get_network(c).unwrap_err(), unavailable);
    assert_eq!(get_node_info(c).unwrap_err(), unavailable);
    let me = c.local.clone();
    assert_eq!(put_local(c, me.clone()), Err(unavailable));
    assert_eq!(put_successor(c, me.clone()), Err(unavailable));
    assert_eq!(put_precessor(c, me.clone()), Err(unavailable));
    assert_eq!(put_network_initialize(c, "x".to_string()), Err(unavailable));
    assert!(matches!(get_storage(c, "key"), Progress::Done(Err(NodeError::NodeUnavailable))));
    assert!(matches!(put_storage(c, "k", "v"), Progress::Done(Err(NodeError::NodeUnavailable))));
    assert!(matches!(calculate_finger_table(c, 1), Progress::Done(Err(NodeError::NodeUnavailable))));
    assert!(matches!(get_network_longest_range(c), Progress::Done(Err(NodeError::NodeUnavailable))));
    assert!(matches!(
        post_network_longest_range(c, me.clone()),
        Progress::Done(Err(NodeError::NodeUnavailable))
    ));
    assert!(matches!(get_network_request_join(c), Progress::Done(Err(NodeError::NodeUnavailable))));
    assert!(matches!(
        put_network_join(c, "b".to_string(), 8001),
        Progress::Done(Err(NodeError::NodeUnavailable))
    ));
    assert!(matches!(put_network_leave(c), Progress::Done(Err(NodeError::NodeUnavailable))));
    assert!(c.connected);
    post_sim_recover(c);
    assert!(!c.is_crashed());
    assert_eq!(helloworld(c), Ok(("a".to_string(), 8000)));
    assert_eq!(get_local(c), Ok(me));
}

#[test]
fn crashed_peer_is_unreachable_for_forwarding() {
    let mut ring = two_node_ring();
    ring[1].crash();
    assert_eq!(get(&mut ring, 0, "key"), Err(NodeError::PeerUnreachable));
    assert_eq!(put(&mut ring, 0, "key", "v"), Err(NodeError::PeerUnreachable));
    ring[1].recover();
    assert_eq!(get(&mut ring, 0, "key"), Err(NodeError::KeyNotFound));
}

#[test]
fn neighbour_updates() {
    let mut c = NodeConfig::new("a".to_string(), 8000);
    put_network_initialize(&mut c, "net-1".to_string()).unwrap();
    put_successor(&mut c, node("b", 8001, 1000, 5)).unwrap();
    assert_eq!(c.local.range, 1000);
    assert_eq!(get_successor(&c), Ok(Some(node("b", 8001, 1000, 5))));
    put_precessor(&mut c, node("c", 8002, 60000, 5536)).unwrap();
    assert_eq!(get_precessor(&c), Ok(Some(node("c", 8002, 60000, 5536))));
    put_local(&mut c, node("a", 8000, 10, 990)).unwrap();
    assert_eq!(get_local(&c), Ok(node("a", 8000, 10, 990)));
    assert_eq!(get_network(&c), Ok(vec!["c:8002".to_string(), "b:8001".to_string()]));
    let info = get_node_info(&c).unwrap();
    assert_eq!(info.node_hash, "10");
    assert_eq!(info.successor, "b:8001");
    assert_eq!(info.others, vec!["c:8002".to_string()]);
    c.finger_table = vec![node("a", 8000, 10, 990), node("b", 8001, 1000, 5)];
    let info = get_node_info(&c).unwrap();
    assert_eq!(info.others, vec!["c:8002", "a:8000", "b:8001"]);
}

#[test]
fn sampling_draws_at_stride() {
    let members: Vec<Node> = (0..8u16).map(|i| node("n", i, i * 100, 1)).collect();
    let table = sample_finger_table(&members, 4).unwrap();
    assert_eq!(table.len(), 4);
    let ports: Vec<u16> = table.iter().map(|n| n.port).collect();
    assert_eq!(ports, vec![0, 2, 4, 6]);
    let table = sample_finger_table(&members, 3).unwrap();
    let ports: Vec<u16> = table.iter().map(|n| n.port).collect();
    assert_eq!(ports, vec![0, 2, 4]);
    let table = sample_finger_table(&members, 8).unwrap();
    assert_eq!(table, members);
    assert_eq!(sample_finger_table(&members, 9), Err(NodeError::InsufficientMembers));
    assert_eq!(sample_finger_table(&members, 0), Ok(vec![]));
}

#[test]
fn finger_table_from_ring_walk() {
    let mut ring = two_node_ring();
    ring.push(NodeConfig::new("c".to_string(), 8002));
    join(&mut ring, 2, 0).unwrap();
    assert_eq!(rebuild_fingers(&mut ring, 0, 3), Ok(()));
    let names: Vec<String> =
        get_finger_table(&ring[0]).unwrap().iter().map(|n| n.hostname.clone()).collect();
    assert_eq!(names, vec!["a", "c", "b"]);
    assert_eq!(rebuild_fingers(&mut ring, 1, 4), Err(NodeError::InsufficientMembers));
    assert!(ring[1].finger_table.is_empty());
    assert_eq!(rebuild_fingers(&mut ring, 1, 1), Ok(()));
    assert_eq!(ring[1].finger_table[0].hostname, "b");
}

#[test]
fn finger_table_needs_connection() {
    let mut c = NodeConfig::new("a".to_string(), 8000);
    assert!(matches!(calculate_finger_table(&mut c, 1), Progress::Done(Err(NodeError::NotConnected))));
    put_network_initialize(&mut c, "net-1".to_string()).unwrap();
    assert!(matches!(calculate_finger_table(&mut c, 1), Progress::Done(Ok(()))));
    assert_eq!(c.finger_table, vec![c.local.clone()]);
    assert!(matches!(
        calculate_finger_table(&mut c, 2),
        Progress::Done(Err(NodeError::InsufficientMembers))
    ));
}

#[test]
fn finger_table_shortcuts_routing() {
    let mut c = NodeConfig::new("a".to_string(), 8000);
    put_network_initialize(&mut c, "net-1".to_string()).unwrap();
    c.local.range = 100;
    c.successor = Some(node("b", 8001, 100, 100));
    c.precessor = Some(node("z", 8009, 60000, 5536));
    c.finger_table = vec![c.local.clone(), node("f", 8005, 20000, 100), node("g", 8006, 20050, 10)];
    // 20060 is clockwise from 0; f is 60 away, g 10 away
    assert_eq!(resolve(&c, 20060), Ok(Route::Forward(node("g", 8006, 20050, 10))));
    // 150 is nearest to the successor itself
    assert_eq!(resolve(&c, 150), Ok(Route::Forward(node("b", 8001, 100, 100))));
    // 50000 lies counter-clockwise: the precessor is 10000 away, f and g farther
    assert_eq!(resolve(&c, 50000), Ok(Route::Forward(node("z", 8009, 60000, 5536))));
    assert_eq!(resolve(&c, 99), Ok(Route::Local));
    c.precessor = None;
    assert_eq!(resolve(&c, 50000), Err(NodeError::NotConnected));
}

#[test]
fn write_operations_of_requests() {
    let n = node("a", 1, 0, 0);
    assert_eq!(PeerRequest::GetSuccessor.write_operation(), None);
    assert_eq!(PeerRequest::GetValue { key: "k".to_string() }.write_operation(), None);
    assert_eq!(
        PeerRequest::PostLongestRange { started_by: n.clone() }.write_operation(),
        Some(WriteOperations::Post)
    );
    assert_eq!(PeerRequest::PutSuccessor { node: n }.write_operation(), Some(WriteOperations::Put));
}

#[test]
fn routing_repeats_its_decision() {
    let mut ring = two_node_ring();
    for key in ["key", "abc", "", "another key"] {
        let location = key_to_location(key);
        let first = resolve(&ring[0], location);
        ring[0].storage.store("unrelated", "value");
        assert_eq!(resolve(&ring[0], location), first);
        assert_eq!(resolve(&ring[0], location), first);
    }
}

#[test]
fn node_info_of_lone_node() {
    let c = NodeConfig::new("solo".to_string(), 0);
    let info = get_node_info(&c).unwrap();
    assert_eq!(info.node_hash, "0");
    assert_eq!(info.successor, "undefined");
    assert!(info.others.is_empty());
    assert_eq!(get_network(&c), Ok(vec![]));
}

#[test]
fn addresses_and_decimals() {
    assert_eq!(node("host", 65535, 0, 0).address(), "host:65535");
    assert_eq!(node("h", 0, 0, 0).address(), "h:0");
    assert_eq!(node("h", 9, 0, 0).address(), "h:9");
    assert_eq!(node("h", 10, 0, 0).address(), "h:10");
    assert_eq!(decimal_text(32768), "32768");
    assert_eq!(decimal_text(100), "100");
}

#[test]
fn finger_table_of_four_member_ring() {
    let mut ring = two_node_ring();
    ring.push(NodeConfig::new("c".to_string(), 8002));
    join(&mut ring, 2, 0).unwrap();
    ring.push(NodeConfig::new("d".to_string(), 8003));
    join(&mut ring, 3, 0).unwrap();
    assert_eq!(ring[3].local.position, 49152);
    assert_eq!(rebuild_fingers(&mut ring, 0, 2), Ok(()));
    let names: Vec<String> = ring[0].finger_table.iter().map(|n| n.hostname.clone()).collect();
    assert_eq!(names, vec!["a", "b"]);
    assert_eq!(rebuild_fingers(&mut ring, 0, 4), Ok(()));
    let names: Vec<String> = ring[0].finger_table.iter().map(|n| n.hostname.clone()).collect();
    assert_eq!(names, vec!["a", "c", "b", "d"]);
    assert_eq!(rebuild_fingers(&mut ring, 2, 3), Ok(()));
    let names: Vec<String> = ring[2].finger_table.iter().map(|n| n.hostname.clone()).collect();
    assert_eq!(names, vec!["c", "b", "d"]);
}

#[test]
fn racing_join_gets_empty_arc() {
    let mut c = NodeConfig::new("j2".to_string(), 9002);
    let holder = node("h", 9000, 0, 4);
    let information = JoinNetworkInformation {
        network: Network { network_id: "net-1".to_string() },
        holder: holder.clone(),
    };
    // another joiner already sits at 2, the spot this node would take
    let earlier = node("j1", 9001, 2, 2);
    let state = JoinNetwork::AwaitingSuccessor { information };
    match state.step(&mut c, PeerReply::Member(earlier.clone())) {
        Progress::Pending(_, call) => {
            assert_eq!(call.hostname, "h");
            assert!(matches!(call.request, PeerRequest::PutSuccessor { .. }));
        }
        Progress::Done(_) => panic!("expected the splice call"),
    }
    assert_eq!(c.local.position, 2);
    assert_eq!(c.local.range, 0);
    assert_eq!(c.successor, Some(earlier));
    assert_eq!(c.precessor, Some(holder));
}
