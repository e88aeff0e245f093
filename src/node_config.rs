//! The node's record of its own place in the ring.
use crate::storage::Storage;
use vstd::prelude::*;
use vstd::string::StringExecFns;

verus! {

/// A ring member: where it is reached, where it sits and how many positions it owns.
#[derive(Clone, Debug, PartialEq, Eq)]
pub struct Node {
    pub hostname: String,
    pub port: u16,
    pub position: u16,
    /// Number of positions, from `position` clockwise, that the node answers for.
    pub range: u32,
}

/// The label shared by all nodes of one ring.
#[derive(Clone, Debug, PartialEq, Eq)]
pub struct Network {
    pub network_id: String,
}

/// What a joining node learns from a member: the ring's label and the member
/// with the longest arc.
#[derive(Clone, Debug, PartialEq, Eq)]
pub struct JoinNetworkInformation {
    pub network: Network,
    pub holder: Node,
}

/// Why an operation failed.
#[derive(Clone, Copy, Debug, PartialEq, Eq, Structural)]
pub enum NodeError {
    /// The node simulates a crash.
    NodeUnavailable,
    /// The operation needs ring membership.
    NotConnected,
    AlreadyConnected,
    /// No member holds an arc that can be split.
    NetworkFull,
    KeyNotFound,
    /// A peer could not be reached or answered with a failure.
    PeerUnreachable,
    /// The ring has fewer members than the finger table asked for.
    InsufficientMembers,
    /// A peer's answer could not be decoded or was of the wrong kind.
    MalformedPeerResponse,
}

/// Both identities name the same host and port.
pub open spec fn same_address(a: Node, b: Node) -> bool {
    a.hostname@ == b.hostname@ && a.port == b.port
}

/// The character of a decimal digit.
pub open spec fn digit(d: int) -> char {
    seq!['0', '1', '2', '3', '4', '5', '6', '7', '8', '9'][d]
}

/// `n` written in decimal, without leading zeros.
pub open spec fn decimal(n: nat) -> Seq<char>
    decreases n,
{
    if n < 10 {
        seq![digit(n as int)]
    } else {
        decimal(n / 10) + seq![digit((n % 10) as int)]
    }
}

/// `host:port` of a ring member.
pub open spec fn address_text(node: Node) -> Seq<char> {
    node.hostname@ + seq![':'] + decimal(node.port as nat)
}

fn digit_text(d: u16) -> (r: &'static str)
    requires
        d < 10,
    ensures
        r@ == seq![digit(d as int)],
{
    proof {
        reveal_strlit("0");
        reveal_strlit("1");
        reveal_strlit("2");
        reveal_strlit("3");
        reveal_strlit("4");
        reveal_strlit("5");
        reveal_strlit("6");
        reveal_strlit("7");
        reveal_strlit("8");
        reveal_strlit("9");
    }
    let r = match d {
        0 => "0",
        1 => "1",
        2 => "2",
        3 => "3",
        4 => "4",
        5 => "5",
        6 => "6",
        7 => "7",
        8 => "8",
        _ => "9",
    };
    assert(r@ =~= seq![digit(d as int)]);
    r
}

/// Appends `n` in decimal to `text`.
fn push_decimal(text: &mut String, n: u16)
    ensures
        final(text)@ == old(text)@ + decimal(n as nat),
    decreases n,
{
    if n >= 10 {
        push_decimal(text, n / 10);
    }
    text.append(digit_text(n % 10));
    assert(text@ =~= old(text)@ + decimal(n as nat));
}

/// `n` in decimal.
pub fn decimal_text(n: u16) -> (r: String)
    ensures
        r@ == decimal(n as nat),
{
    let mut text = String::new();
    push_decimal(&mut text, n);
    assert(text@ =~= decimal(n as nat));
    text
}

impl Node {
    /// The `host:port` text under which the member is reached.
    pub fn address(&self) -> (r: String)
        ensures
            r@ == address_text(*self),
    {
        let mut text = self.hostname.clone();
        proof {
            reveal_strlit(":");
        }
        text.append(":");
        push_decimal(&mut text, self.port);
        assert(text@ =~= address_text(*self));
        text
    }

    /// A copy of this identity.
    pub fn snapshot(&self) -> (r: Node)
        ensures
            r == *self,
    {
        Node {
            hostname: self.hostname.clone(),
            port: self.port,
            position: self.position,
            range: self.range,
        }
    }

    /// Whether `other` is reached at the same host and port.
    pub fn same_address(&self, other: &Node) -> (r: bool)
        ensures
            r == same_address(*self, *other),
    {
        self.port == other.port && self.hostname == other.hostname
    }
}

impl Network {
    /// A copy of this label.
    pub fn snapshot(&self) -> (r: Network)
        ensures
            r == *self,
    {
        Network { network_id: self.network_id.clone() }
    }
}

/// Copies a list of identities.
pub fn snapshot_nodes(nodes: &Vec<Node>) -> (r: Vec<Node>)
    ensures
        r@ == nodes@,
{
    let mut out: Vec<Node> = Vec::new();
    let n = nodes.len();
    let mut i: usize = 0;
    while i < n
        invariant
            n == nodes@.len(),
            0 <= i <= n,
            out@ == nodes@.subrange(0, i as int),
        decreases n - i,
    {
        out.push(nodes[i].snapshot());
        i = i + 1;
        assert(out@ =~= nodes@.subrange(0, i as int));
    }
    assert(out@ =~= nodes@);
    out
}

/// One node's view of the ring.
pub struct NodeConfig {
    pub network: Option<Network>,
    pub connected: bool,
    pub local: Node,
    pub successor: Option<Node>,
    pub precessor: Option<Node>,
    pub finger_table: Vec<Node>,
    pub storage: Storage,
    pub crashed: bool,
}

impl NodeConfig {
    /// A connected node knows its ring and both neighbours.
    pub open spec fn wf(&self) -> bool {
        self.connected ==> {
            &&& self.network is Some
            &&& self.successor is Some
            &&& self.precessor is Some
        }
    }

    /// The record of a node that has not joined any ring yet.
    pub fn new(hostname: String, port: u16) -> (r: NodeConfig)
        ensures
            r.wf(),
            r.local == (Node { hostname, port, position: 0, range: 0 }),
            !r.connected,
            !r.crashed,
            r.network is None,
            r.successor is None,
            r.precessor is None,
            r.finger_table@.len() == 0,
            r.storage@ == Map::<Seq<char>, Seq<char>>::empty(),
    {
        NodeConfig {
            network: None,
            connected: false,
            local: Node { hostname, port, position: 0, range: 0 },
            successor: None,
            precessor: None,
            finger_table: Vec::new(),
            storage: Storage::new(),
            crashed: false,
        }
    }

    /// Starts simulating a crash.
    pub fn crash(&mut self)
        ensures
            *final(self) == (NodeConfig { crashed: true, ..*old(self) }),
    {
        self.crashed = true;
    }

    /// Ends a simulated crash.
    pub fn recover(&mut self)
        ensures
            *final(self) == (NodeConfig { crashed: false, ..*old(self) }),
    {
        self.crashed = false;
    }

    /// Whether the node simulates a crash.
    pub fn is_crashed(&self) -> (r: bool)
        ensures
            r == self.crashed,
    {
        self.crashed
    }
}

/// Fails with `NotConnected` unless the node is part of a ring.
pub fn check_if_node_is_connected(config: &NodeConfig) -> (r: Result<(), NodeError>)
    ensures
        config.connected ==> r is Ok,
        !config.connected ==> r == Err::<(), NodeError>(NodeError::NotConnected),
{
    if config.connected {
        Ok(())
    } else {
        Err(NodeError::NotConnected)
    }
}

} // verus!
