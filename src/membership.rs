//! Creating a ring, finding where a newcomer fits, joining and leaving.
use crate::endpoints::{with_precessor, with_successor};
use crate::node_config::{same_address, JoinNetworkInformation, Network, Node, NodeConfig, NodeError};
use crate::peer::{call_to, call_to_node, error_of_reply, reply_error, PeerCall, PeerReply, PeerRequest, Progress};
use crate::ring::{arc_length, forward_distance, forward_distance_between, key_location, RING_SIZE};
use crate::router::{route_of, Route};
use vstd::prelude::*;

verus! {

/// `c` as the only member of a new ring labelled `network`, owning every position.
pub open spec fn initialized(c: NodeConfig, network: Network) -> NodeConfig {
    let local = Node { position: 0, range: RING_SIZE, ..c.local };
    NodeConfig {
        connected: true,
        network: Some(network),
        local,
        successor: Some(local),
        precessor: Some(local),
        ..c
    }
}

/// Where a node joining after `holder` sits: halfway along the holder's arc.
pub open spec fn join_position(holder: Node) -> int {
    (holder.position + holder.range / 2) % (RING_SIZE as int)
}

/// `c` after joining `network` between `holder` and the holder's `successor`.
pub open spec fn joined(c: NodeConfig, network: Network, holder: Node, successor: Node) -> NodeConfig {
    let position = join_position(holder);
    let local = Node {
        position: position as u16,
        range: forward_distance(position, successor.position as int) as u32,
        ..c.local
    };
    NodeConfig {
        connected: true,
        network: Some(network),
        local,
        successor: Some(successor),
        precessor: Some(holder),
        ..c
    }
}

/// `after` is `before` reset to the state of a node outside any ring.
pub open spec fn departed(after: NodeConfig, before: NodeConfig) -> bool {
    &&& !after.connected
    &&& after.network is None
    &&& after.successor is None
    &&& after.precessor is None
    &&& after.finger_table@.len() == 0
    &&& after.local == (Node { position: 0, range: 0, ..before.local })
    &&& after.storage == before.storage
    &&& after.crashed == before.crashed
}

/// Of this node and the holder reported from upstream, the one with the longer
/// arc; the upstream holder wins a tie.
pub open spec fn longer_arc(local: Node, upstream: Node) -> Node {
    if upstream.range >= local.range {
        upstream
    } else {
        local
    }
}

/// Creates a new ring with this node as its only member.
pub fn put_network_initialize(config: &mut NodeConfig, network_id: String) -> (r: Result<
    Network,
    NodeError,
>)
    ensures
        old(config).crashed ==> r == Err::<Network, NodeError>(NodeError::NodeUnavailable)
            && *final(config) == *old(config),
        !old(config).crashed && old(config).connected ==> r == Err::<Network, NodeError>(
            NodeError::AlreadyConnected,
        ) && *final(config) == *old(config),
        !old(config).crashed && !old(config).connected ==> r == Ok::<Network, NodeError>(
            Network { network_id },
        ) && *final(config) == initialized(*old(config), Network { network_id }),
        old(config).wf() ==> final(config).wf(),
{
    if config.is_crashed() {
        return Err(NodeError::NodeUnavailable);
    }
    if config.connected {
        return Err(NodeError::AlreadyConnected);
    }
    let network = Network { network_id };
    config.connected = true;
    config.network = Some(network.snapshot());
    config.local.position = 0;
    config.local.range = RING_SIZE;
    config.precessor = Some(config.local.snapshot());
    config.successor = Some(config.local.snapshot());
    Ok(network)
}

/// A longest-arc query that this node started and sent to its successor.
pub struct LongestRangeQuery;

/// A longest-arc query relayed through this node; `local` is this node as it
/// was when the query passed.
pub struct LongestRangeRelay {
    pub local: Node,
}

/// Starts the ring-wide search for the member with the longest arc, by
/// sending it on to the successor with this node as its origin.
pub fn get_network_longest_range(config: &NodeConfig) -> (r: Progress<LongestRangeQuery, Node>)
    ensures
        config.crashed ==> r == Progress::<LongestRangeQuery, Node>::Done(
            Err(NodeError::NodeUnavailable),
        ),
        !config.crashed ==> match (config.connected, config.successor) {
            (true, Some(s)) => match r {
                Progress::Pending(_, call) => call == call_to(
                    s,
                    PeerRequest::PostLongestRange { started_by: config.local },
                ),
                _ => false,
            },
            _ => r == Progress::<LongestRangeQuery, Node>::Done(Err(NodeError::NotConnected)),
        },
{
    if config.is_crashed() {
        return Progress::Done(Err(NodeError::NodeUnavailable));
    }
    if !config.connected {
        return Progress::Done(Err(NodeError::NotConnected));
    }
    match &config.successor {
        None => Progress::Done(Err(NodeError::NotConnected)),
        Some(s) => {
            let request = PeerRequest::PostLongestRange { started_by: config.local.snapshot() };
            Progress::Pending(LongestRangeQuery, call_to_node(s, request))
        },
    }
}

impl LongestRangeQuery {
    /// The holder that came back around the ring.
    pub fn complete(self, reply: PeerReply) -> (r: Result<Node, NodeError>)
        ensures
            match reply {
                PeerReply::Member(holder) => r == Ok::<Node, NodeError>(holder),
                _ => r == Err::<Node, NodeError>(reply_error(reply)),
            },
    {
        match reply {
            PeerReply::Member(holder) => Ok(holder),
            other => Err(error_of_reply(&other)),
        }
    }
}

/// Handles a longest-arc query that `started_by` began: the origin answers
/// with itself, which ends the round; any other node passes it on.
pub fn post_network_longest_range(config: &NodeConfig, started_by: Node) -> (r: Progress<
    LongestRangeRelay,
    Node,
>)
    ensures
        config.crashed ==> r == Progress::<LongestRangeRelay, Node>::Done(
            Err(NodeError::NodeUnavailable),
        ),
        !config.crashed && !config.connected ==> r == Progress::<LongestRangeRelay, Node>::Done(
            Err(NodeError::NotConnected),
        ),
        !config.crashed && config.connected && same_address(started_by, config.local) ==> r
            == Progress::<LongestRangeRelay, Node>::Done(Ok(config.local)),
        !config.crashed && config.connected && !same_address(started_by, config.local) ==> match config.successor {
            Some(s) => match r {
                Progress::Pending(relay, call) => relay.local == config.local && call == call_to(
                    s,
                    PeerRequest::PostLongestRange { started_by },
                ),
                _ => false,
            },
            None => r == Progress::<LongestRangeRelay, Node>::Done(Err(NodeError::NotConnected)),
        },
{
    if config.is_crashed() {
        return Progress::Done(Err(NodeError::NodeUnavailable));
    }
    if !config.connected {
        return Progress::Done(Err(NodeError::NotConnected));
    }
    if started_by.same_address(&config.local) {
        return Progress::Done(Ok(config.local.snapshot()));
    }
    match &config.successor {
        None => Progress::Done(Err(NodeError::NotConnected)),
        Some(s) => {
            let call = call_to_node(s, PeerRequest::PostLongestRange { started_by });
            Progress::Pending(LongestRangeRelay { local: config.local.snapshot() }, call)
        },
    }
}

impl LongestRangeRelay {
    /// Compares the upstream answer with this node.
    pub fn complete(self, reply: PeerReply) -> (r: Result<Node, NodeError>)
        ensures
            match reply {
                PeerReply::Member(upstream) => r == Ok::<Node, NodeError>(
                    longer_arc(self.local, upstream),
                ),
                _ => r == Err::<Node, NodeError>(reply_error(reply)),
            },
    {
        match reply {
            PeerReply::Member(upstream) => {
                if upstream.range >= self.local.range {
                    Ok(upstream)
                } else {
                    Ok(self.local)
                }
            },
            other => Err(error_of_reply(&other)),
        }
    }
}

/// A request for join information, waiting for the longest-arc answer.
pub struct JoinInformationQuery {
    pub network: Network,
}

/// Answers a node that wants to join: the ring's label, and the member with
/// the longest arc, found by a query around the ring.
pub fn get_network_request_join(config: &NodeConfig) -> (r: Progress<
    JoinInformationQuery,
    JoinNetworkInformation,
>)
    ensures
        config.crashed ==> r == Progress::<JoinInformationQuery, JoinNetworkInformation>::Done(
            Err(NodeError::NodeUnavailable),
        ),
        !config.crashed ==> match (config.connected, config.network, config.successor) {
            (true, Some(network), Some(s)) => match r {
                Progress::Pending(query, call) => query.network == network && call == call_to(
                    s,
                    PeerRequest::PostLongestRange { started_by: config.local },
                ),
                _ => false,
            },
            _ => r == Progress::<JoinInformationQuery, JoinNetworkInformation>::Done(
                Err(NodeError::NotConnected),
            ),
        },
{
    if config.is_crashed() {
        return Progress::Done(Err(NodeError::NodeUnavailable));
    }
    if !config.connected {
        return Progress::Done(Err(NodeError::NotConnected));
    }
    let network = match &config.network {
        None => {
            return Progress::Done(Err(NodeError::NotConnected));
        },
        Some(n) => n.snapshot(),
    };
    match &config.successor {
        None => Progress::Done(Err(NodeError::NotConnected)),
        Some(s) => {
            let request = PeerRequest::PostLongestRange { started_by: config.local.snapshot() };
            Progress::Pending(JoinInformationQuery { network }, call_to_node(s, request))
        },
    }
}

impl JoinInformationQuery {
    /// The join information, once the holder has come back.
    pub fn complete(self, reply: PeerReply) -> (r: Result<JoinNetworkInformation, NodeError>)
        ensures
            match reply {
                PeerReply::Member(holder) => r == Ok::<JoinNetworkInformation, NodeError>(
                    JoinNetworkInformation { network: self.network, holder },
                ),
                _ => r == Err::<JoinNetworkInformation, NodeError>(reply_error(reply)),
            },
    {
        match reply {
            PeerReply::Member(holder) => Ok(JoinNetworkInformation { network: self.network, holder }),
            other => Err(error_of_reply(&other)),
        }
    }
}

/// A join in progress, by the answer it waits for.
pub enum JoinNetwork {
    /// The contacted member's join information.
    AwaitingInformation,
    /// The successor of the longest-arc holder.
    AwaitingSuccessor { information: JoinNetworkInformation },
    /// The new precessor's acknowledgement that this node is its successor.
    LinkingPrecessor { successor: Node, network: Network },
    /// The new successor's acknowledgement that this node is its precessor.
    LinkingSuccessor { network: Network },
}

/// Starts joining the ring that the node at `hostname:port` belongs to.
pub fn put_network_join(config: &NodeConfig, hostname: String, port: u16) -> (r: Progress<
    JoinNetwork,
    Network,
>)
    ensures
        config.crashed ==> r == Progress::<JoinNetwork, Network>::Done(
            Err(NodeError::NodeUnavailable),
        ),
        !config.crashed ==> r == Progress::<JoinNetwork, Network>::Pending(
            JoinNetwork::AwaitingInformation,
            PeerCall { hostname, port, request: PeerRequest::GetJoinInformation },
        ),
{
    if config.is_crashed() {
        return Progress::Done(Err(NodeError::NodeUnavailable));
    }
    Progress::Pending(
        JoinNetwork::AwaitingInformation,
        PeerCall { hostname, port, request: PeerRequest::GetJoinInformation },
    )
}

/// Takes this node into the ring between `holder` and `successor`.
fn settle_joined(config: &mut NodeConfig, network: Network, holder: Node, successor: Node)
    ensures
        *final(config) == joined(*old(config), network, holder, successor),
{
    let position = ((holder.position as u32 + holder.range / 2) % RING_SIZE) as u16;
    let range = forward_distance_between(position, successor.position);
    config.connected = true;
    config.network = Some(network);
    config.local.position = position;
    config.local.range = range;
    config.successor = Some(successor);
    config.precessor = Some(holder);
}

impl JoinNetwork {
    /// Takes the answer to the pending call. A holder whose arc is shorter
    /// than two cannot be split. Once the holder's successor is known the node
    /// takes the back half of the holder's arc, then tells the holder and the
    /// successor about itself. A failed call ends the join where it stands.
    pub fn step(self, config: &mut NodeConfig, reply: PeerReply) -> (r: Progress<JoinNetwork, Network>)
        ensures
            match (self, reply) {
                (JoinNetwork::AwaitingInformation, PeerReply::JoinInformation(information)) => {
                    &&& *final(config) == *old(config)
                    &&& if information.holder.range < 2 {
                        r == Progress::<JoinNetwork, Network>::Done(Err(NodeError::NetworkFull))
                    } else {
                        r == Progress::<JoinNetwork, Network>::Pending(
                            JoinNetwork::AwaitingSuccessor { information },
                            call_to(information.holder, PeerRequest::GetSuccessor),
                        )
                    }
                },
                (JoinNetwork::AwaitingSuccessor { information }, PeerReply::Member(successor)) => {
                    &&& *final(config) == joined(
                        *old(config),
                        information.network,
                        information.holder,
                        successor,
                    )
                    &&& r == Progress::<JoinNetwork, Network>::Pending(
                        JoinNetwork::LinkingPrecessor { successor, network: information.network },
                        call_to(information.holder, PeerRequest::PutSuccessor { node: final(config).local }),
                    )
                },
                (JoinNetwork::LinkingPrecessor { successor, network }, PeerReply::Acknowledged) => {
                    &&& *final(config) == *old(config)
                    &&& r == Progress::<JoinNetwork, Network>::Pending(
                        JoinNetwork::LinkingSuccessor { network },
                        call_to(successor, PeerRequest::PutPrecessor { node: old(config).local }),
                    )
                },
                (JoinNetwork::LinkingSuccessor { network }, PeerReply::Acknowledged) => {
                    &&& *final(config) == *old(config)
                    &&& r == Progress::<JoinNetwork, Network>::Done(Ok(network))
                },
                (_, reply) => {
                    &&& *final(config) == *old(config)
                    &&& r == Progress::<JoinNetwork, Network>::Done(Err(reply_error(reply)))
                },
            },
    {
        match (self, reply) {
            (JoinNetwork::AwaitingInformation, PeerReply::JoinInformation(information)) => {
                if information.holder.range < 2 {
                    Progress::Done(Err(NodeError::NetworkFull))
                } else {
                    let call = call_to_node(&information.holder, PeerRequest::GetSuccessor);
                    Progress::Pending(JoinNetwork::AwaitingSuccessor { information }, call)
                }
            },
            (JoinNetwork::AwaitingSuccessor { information }, PeerReply::Member(successor)) => {
                let JoinNetworkInformation { network, holder } = information;
                let call_target = holder.snapshot();
                settle_joined(config, network.snapshot(), holder, successor.snapshot());
                let call = call_to_node(
                    &call_target,
                    PeerRequest::PutSuccessor { node: config.local.snapshot() },
                );
                Progress::Pending(JoinNetwork::LinkingPrecessor { successor, network }, call)
            },
            (JoinNetwork::LinkingPrecessor { successor, network }, PeerReply::Acknowledged) => {
                let call = call_to_node(
                    &successor,
                    PeerRequest::PutPrecessor { node: config.local.snapshot() },
                );
                Progress::Pending(JoinNetwork::LinkingSuccessor { network }, call)
            },
            (JoinNetwork::LinkingSuccessor { network }, PeerReply::Acknowledged) => {
                Progress::Done(Ok(network))
            },
            (_, other) => Progress::Done(Err(error_of_reply(&other))),
        }
    }
}

/// A departure in progress, by the answer it waits for.
pub enum LeaveNetwork {
    /// The precessor's current identity; `successor` is the pointer still to refresh.
    FetchingPrecessor { successor: Node },
    /// The successor's current identity.
    FetchingSuccessor { precessor: Node },
    /// The successor's acknowledgement that `precessor` is its precessor now.
    LinkingSuccessor { precessor: Node, successor: Node },
    /// The precessor's acknowledgement that the successor follows it now.
    LinkingPrecessor,
}

/// Starts leaving the ring: first asks the precessor who it is now.
pub fn put_network_leave(config: &NodeConfig) -> (r: Progress<LeaveNetwork, Network>)
    ensures
        config.crashed ==> r == Progress::<LeaveNetwork, Network>::Done(
            Err(NodeError::NodeUnavailable),
        ),
        !config.crashed ==> match (config.connected, config.precessor, config.successor) {
            (true, Some(p), Some(s)) => r == Progress::<LeaveNetwork, Network>::Pending(
                LeaveNetwork::FetchingPrecessor { successor: s },
                call_to(p, PeerRequest::GetLocal),
            ),
            _ => r == Progress::<LeaveNetwork, Network>::Done(Err(NodeError::NotConnected)),
        },
{
    if config.is_crashed() {
        return Progress::Done(Err(NodeError::NodeUnavailable));
    }
    if !config.connected {
        return Progress::Done(Err(NodeError::NotConnected));
    }
    match (&config.precessor, &config.successor) {
        (Some(p), Some(s)) => Progress::Pending(
            LeaveNetwork::FetchingPrecessor { successor: s.snapshot() },
            call_to_node(p, PeerRequest::GetLocal),
        ),
        _ => Progress::Done(Err(NodeError::NotConnected)),
    }
}

/// Resets the record to that of a node outside any ring.
fn settle_departed(config: &mut NodeConfig)
    ensures
        departed(*final(config), *old(config)),
{
    config.connected = false;
    config.network = None;
    config.successor = None;
    config.precessor = None;
    config.finger_table = Vec::new();
    config.local.position = 0;
    config.local.range = 0;
}

impl LeaveNetwork {
    /// Takes the answer to the pending call. With both neighbours refreshed,
    /// the successor learns its new precessor, then the precessor its new
    /// successor; after that the node resets itself. A failed call ends the
    /// departure with the node still connected.
    pub fn step(self, config: &mut NodeConfig, reply: PeerReply) -> (r: Progress<LeaveNetwork, Network>)
        ensures
            match (self, reply) {
                (LeaveNetwork::FetchingPrecessor { successor }, PeerReply::Member(precessor)) => {
                    &&& *final(config) == *old(config)
                    &&& r == Progress::<LeaveNetwork, Network>::Pending(
                        LeaveNetwork::FetchingSuccessor { precessor },
                        call_to(successor, PeerRequest::GetLocal),
                    )
                },
                (LeaveNetwork::FetchingSuccessor { precessor }, PeerReply::Member(successor)) => {
                    &&& *final(config) == *old(config)
                    &&& r == Progress::<LeaveNetwork, Network>::Pending(
                        LeaveNetwork::LinkingSuccessor { precessor, successor },
                        call_to(successor, PeerRequest::PutPrecessor { node: precessor }),
                    )
                },
                (LeaveNetwork::LinkingSuccessor { precessor, successor }, PeerReply::Acknowledged) => {
                    &&& *final(config) == *old(config)
                    &&& r == Progress::<LeaveNetwork, Network>::Pending(
                        LeaveNetwork::LinkingPrecessor,
                        call_to(precessor, PeerRequest::PutSuccessor { node: successor }),
                    )
                },
                (LeaveNetwork::LinkingPrecessor, PeerReply::Acknowledged) => match old(config).network {
                    Some(network) => {
                        &&& departed(*final(config), *old(config))
                        &&& r == Progress::<LeaveNetwork, Network>::Done(Ok(network))
                    },
                    None => {
                        &&& *final(config) == *old(config)
                        &&& r == Progress::<LeaveNetwork, Network>::Done(Err(NodeError::NotConnected))
                    },
                },
                (_, reply) => {
                    &&& *final(config) == *old(config)
                    &&& r == Progress::<LeaveNetwork, Network>::Done(Err(reply_error(reply)))
                },
            },
    {
        match (self, reply) {
            (LeaveNetwork::FetchingPrecessor { successor }, PeerReply::Member(precessor)) => {
                let call = call_to_node(&successor, PeerRequest::GetLocal);
                Progress::Pending(LeaveNetwork::FetchingSuccessor { precessor }, call)
            },
            (LeaveNetwork::FetchingSuccessor { precessor }, PeerReply::Member(successor)) => {
                let call = call_to_node(
                    &successor,
                    PeerRequest::PutPrecessor { node: precessor.snapshot() },
                );
                Progress::Pending(LeaveNetwork::LinkingSuccessor { precessor, successor }, call)
            },
            (LeaveNetwork::LinkingSuccessor { precessor, successor }, PeerReply::Acknowledged) => {
                let call = call_to_node(&precessor, PeerRequest::PutSuccessor { node: successor });
                Progress::Pending(LeaveNetwork::LinkingPrecessor, call)
            },
            (LeaveNetwork::LinkingPrecessor, PeerReply::Acknowledged) => {
                let network = match &config.network {
                    Some(n) => n.snapshot(),
                    None => {
                        return Progress::Done(Err(NodeError::NotConnected));
                    },
                };
                settle_departed(config);
                Progress::Done(Ok(network))
            },
            (_, other) => Progress::Done(Err(error_of_reply(&other))),
        }
    }
}

/// A join splits the holder's arc in two without gap or overlap: when the
/// holder's successor starts where the holder's arc ends, the holder keeps the
/// front half, the newcomer takes the back half, and both are non-empty.
pub proof fn join_splits_holder_arc(c: NodeConfig, network: Network, holder: Node, successor: Node)
    requires
        2 <= holder.range <= RING_SIZE,
        successor.position == (holder.position + holder.range) % (RING_SIZE as int),
    ensures
        ({
            let newcomer = joined(c, network, holder, successor).local;
            let kept = arc_length(holder.position as int, newcomer.position as int);
            &&& kept == holder.range / 2
            &&& newcomer.range == holder.range - holder.range / 2
            &&& kept + newcomer.range == holder.range
            &&& 0 < kept && 0 < newcomer.range
        }),
{
}

/// Two nodes joining and parting. `a` starts a ring labelled `network`. `b`
/// joins through `a`, which reports itself as the longest-arc holder and as
/// that holder's successor; `a` is then told `b` is its successor and its
/// precessor. The two point at each other and split the ring without gap or
/// overlap. When `b` leaves it refreshes both neighbours (both are `a`) and
/// hands `a` its own identity as precessor and successor: `a` is again a ring
/// of one that owns every position.
pub proof fn join_then_leave_round_trip(a: NodeConfig, b: NodeConfig, network: Network)
    ensures
        ({
            let a1 = initialized(a, network);
            let b1 = joined(b, network, a1.local, a1.local);
            let a2 = with_precessor(with_successor(a1, b1.local), b1.local);
            let a3 = with_successor(with_precessor(a2, a2.local), a2.local);
            &&& a2.successor == Some(b1.local)
            &&& a2.precessor == Some(b1.local)
            &&& b1.successor == Some(a1.local)
            &&& b1.precessor == Some(a1.local)
            &&& same_address(a1.local, a2.local) && a1.local.position == a2.local.position
            &&& a2.local.range + b1.local.range == RING_SIZE
            &&& b1.local.position == (a2.local.position + a2.local.range) % (RING_SIZE as int)
            &&& a2.local.position == (b1.local.position + b1.local.range) % (RING_SIZE as int)
            &&& a3.successor == Some(a2.local)
            &&& a3.precessor == Some(a2.local)
            &&& same_address(a3.local, a2.local) && a3.local.position == a2.local.position
            &&& a3.local.range == RING_SIZE
        }),
{
}

/// A ring of one answers for every key itself: no request is ever forwarded.
pub proof fn singleton_owns_every_key(c: NodeConfig, network: Network, key: Seq<char>, location: u16)
    ensures
        route_of(initialized(c, network), location as int) == Ok::<Route, NodeError>(Route::Local),
        route_of(initialized(c, network), key_location(key)) == Ok::<Route, NodeError>(Route::Local),
{
    let digest = crate::ring::sha1_digest_of(key);
    assert(0 <= digest[0] < 256 && 0 <= digest[1] < 256);
}

/// The membership transitions keep a connected record's neighbours and
/// label in place.
pub proof fn transitions_keep_wf(c: NodeConfig, after: NodeConfig, network: Network, holder: Node, successor: Node, n: Node)
    ensures
        initialized(c, network).wf(),
        joined(c, network, holder, successor).wf(),
        departed(after, c) ==> after.wf(),
        c.wf() ==> with_successor(c, n).wf(),
        c.wf() ==> with_precessor(c, n).wf(),
{
}

} // verus!
