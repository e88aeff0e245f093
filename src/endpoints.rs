//! Inbound operations that read or set the membership record directly.
//! Each of them fails with `NodeUnavailable` while the node simulates a crash.
use crate::node_config::{address_text, decimal, decimal_text, snapshot_nodes, Node, NodeConfig, NodeError};
use vstd::string::StringExecFns;
use crate::ring::{arc_length, arc_length_between};
use vstd::prelude::*;

verus! {

/// `c` with `n` as successor; the node's arc now runs up to `n`.
pub open spec fn with_successor(c: NodeConfig, n: Node) -> NodeConfig {
    NodeConfig {
        successor: Some(n),
        local: Node { range: arc_length(c.local.position as int, n.position as int) as u32, ..c.local },
        ..c
    }
}

/// `c` with `n` as precessor.
pub open spec fn with_precessor(c: NodeConfig, n: Node) -> NodeConfig {
    NodeConfig { precessor: Some(n), ..c }
}

/// The identities that an optional neighbour contributes to a list.
pub open spec fn listed(n: Option<Node>) -> Seq<Node> {
    match n {
        Some(node) => seq![node],
        None => Seq::empty(),
    }
}

/// What a node reports about itself, as text.
#[derive(Clone, Debug, PartialEq, Eq)]
pub struct NodeInfo {
    /// The node's position in decimal.
    pub node_hash: String,
    /// `host:port` of the successor, or `undefined`.
    pub successor: String,
    /// `host:port` of the precessor, if any, then of each finger-table entry.
    pub others: Vec<String>,
}

/// How the successor shows in a node's report.
pub open spec fn successor_text(n: Option<Node>) -> Seq<char> {
    match n {
        Some(node) => address_text(node),
        None => "undefined"@,
    }
}

fn snapshot_option(n: &Option<Node>) -> (r: Option<Node>)
    ensures
        r == *n,
{
    match n {
        Some(node) => Some(node.snapshot()),
        None => None,
    }
}

/// Liveness probe: the host and port this node is reached at.
pub fn helloworld(config: &NodeConfig) -> (r: Result<(String, u16), NodeError>)
    ensures
        config.crashed ==> r == Err::<(String, u16), NodeError>(NodeError::NodeUnavailable),
        !config.crashed ==> r == Ok::<(String, u16), NodeError>(
            (config.local.hostname, config.local.port),
        ),
{
    if config.is_crashed() {
        return Err(NodeError::NodeUnavailable);
    }
    Ok((config.local.hostname.clone(), config.local.port))
}

/// Starts a simulated crash; the flag is set whatever its value was.
pub fn post_sim_crash(config: &mut NodeConfig)
    ensures
        *final(config) == (NodeConfig { crashed: true, ..*old(config) }),
{
    config.crash();
}

/// Ends a simulated crash.
pub fn post_sim_recover(config: &mut NodeConfig)
    ensures
        *final(config) == (NodeConfig { crashed: false, ..*old(config) }),
{
    config.recover();
}

/// The precessor, if the node knows one.
pub fn get_precessor(config: &NodeConfig) -> (r: Result<Option<Node>, NodeError>)
    ensures
        config.crashed ==> r == Err::<Option<Node>, NodeError>(NodeError::NodeUnavailable),
        !config.crashed ==> r == Ok::<Option<Node>, NodeError>(config.precessor),
{
    if config.is_crashed() {
        return Err(NodeError::NodeUnavailable);
    }
    Ok(snapshot_option(&config.precessor))
}

/// The successor, if the node knows one.
pub fn get_successor(config: &NodeConfig) -> (r: Result<Option<Node>, NodeError>)
    ensures
        config.crashed ==> r == Err::<Option<Node>, NodeError>(NodeError::NodeUnavailable),
        !config.crashed ==> r == Ok::<Option<Node>, NodeError>(config.successor),
{
    if config.is_crashed() {
        return Err(NodeError::NodeUnavailable);
    }
    Ok(snapshot_option(&config.successor))
}

/// The node's own identity.
pub fn get_local(config: &NodeConfig) -> (r: Result<Node, NodeError>)
    ensures
        config.crashed ==> r == Err::<Node, NodeError>(NodeError::NodeUnavailable),
        !config.crashed ==> r == Ok::<Node, NodeError>(config.local),
{
    if config.is_crashed() {
        return Err(NodeError::NodeUnavailable);
    }
    Ok(config.local.snapshot())
}

/// Makes `node` the precessor.
pub fn put_precessor(config: &mut NodeConfig, node: Node) -> (r: Result<(), NodeError>)
    ensures
        old(config).crashed ==> r == Err::<(), NodeError>(NodeError::NodeUnavailable)
            && *final(config) == *old(config),
        !old(config).crashed ==> r is Ok && *final(config) == with_precessor(*old(config), node),
{
    if config.is_crashed() {
        return Err(NodeError::NodeUnavailable);
    }
    config.precessor = Some(node);
    Ok(())
}

/// Makes `node` the successor; the node's arc then ends where `node` begins.
pub fn put_successor(config: &mut NodeConfig, node: Node) -> (r: Result<(), NodeError>)
    ensures
        old(config).crashed ==> r == Err::<(), NodeError>(NodeError::NodeUnavailable)
            && *final(config) == *old(config),
        !old(config).crashed ==> r is Ok && *final(config) == with_successor(*old(config), node),
{
    if config.is_crashed() {
        return Err(NodeError::NodeUnavailable);
    }
    let range = arc_length_between(config.local.position, node.position);
    config.successor = Some(node);
    config.local.range = range;
    Ok(())
}

/// Replaces the node's own identity.
pub fn put_local(config: &mut NodeConfig, node: Node) -> (r: Result<(), NodeError>)
    ensures
        old(config).crashed ==> r == Err::<(), NodeError>(NodeError::NodeUnavailable)
            && *final(config) == *old(config),
        !old(config).crashed ==> r is Ok && *final(config) == (NodeConfig {
            local: node,
            ..*old(config)
        }),
{
    if config.is_crashed() {
        return Err(NodeError::NodeUnavailable);
    }
    config.local = node;
    Ok(())
}

/// The finger table.
pub fn get_finger_table(config: &NodeConfig) -> (r: Result<Vec<Node>, NodeError>)
    ensures
        config.crashed ==> (r matches Err(e) && e == NodeError::NodeUnavailable),
        !config.crashed ==> (r matches Ok(t) && t@ == config.finger_table@),
{
    if config.is_crashed() {
        return Err(NodeError::NodeUnavailable);
    }
    Ok(snapshot_nodes(&config.finger_table))
}

/// The texts of a list of strings.
pub open spec fn texts(v: Seq<String>) -> Seq<Seq<char>> {
    v.map_values(|t: String| t@)
}

/// The `host:port` texts of a list of members.
pub open spec fn addresses(nodes: Seq<Node>) -> Seq<Seq<char>> {
    nodes.map_values(|n: Node| address_text(n))
}

/// The direct neighbours that the node knows, as `host:port`: its
/// precessor, then its successor.
pub fn get_network(config: &NodeConfig) -> (r: Result<Vec<String>, NodeError>)
    ensures
        config.crashed ==> (r matches Err(e) && e == NodeError::NodeUnavailable),
        !config.crashed ==> (r matches Ok(v) && texts(v@) == addresses(
            listed(config.precessor) + listed(config.successor),
        )),
{
    if config.is_crashed() {
        return Err(NodeError::NodeUnavailable);
    }
    let mut known: Vec<String> = Vec::new();
    if let Some(p) = &config.precessor {
        known.push(p.address());
    }
    if let Some(s) = &config.successor {
        known.push(s.address());
    }
    assert(texts(known@) =~= addresses(listed(config.precessor) + listed(config.successor)));
    Ok(known)
}

/// The node's position, its successor, and the other nodes it knows of.
pub fn get_node_info(config: &NodeConfig) -> (r: Result<NodeInfo, NodeError>)
    ensures
        config.crashed ==> (r matches Err(e) && e == NodeError::NodeUnavailable),
        !config.crashed ==> (r matches Ok(info) && info.node_hash@ == decimal(
            config.local.position as nat,
        ) && info.successor@ == successor_text(config.successor) && texts(info.others@)
            == addresses(listed(config.precessor) + config.finger_table@)),
{
    if config.is_crashed() {
        return Err(NodeError::NodeUnavailable);
    }
    let mut others: Vec<String> = Vec::new();
    if let Some(p) = &config.precessor {
        others.push(p.address());
    }
    let ghost first = listed(config.precessor);
    assert(texts(others@) =~= addresses(first));
    let fingers = &config.finger_table;
    let n = fingers.len();
    let mut i: usize = 0;
    while i < n
        invariant
            n == fingers@.len(),
            0 <= i <= n,
            texts(others@) =~= addresses(first + fingers@.subrange(0, i as int)),
        decreases n - i,
    {
        let ghost before = others@;
        let ghost seen = first + fingers@.subrange(0, i as int);
        others.push(fingers[i].address());
        i = i + 1;
        assert(first + fingers@.subrange(0, i as int) =~= seen.push(fingers@[i - 1]));
        assert(texts(others@) =~= texts(before).push(address_text(fingers@[i - 1])));
        assert(addresses(seen.push(fingers@[i - 1])) =~= addresses(seen).push(
            address_text(fingers@[i - 1]),
        ));
    }
    assert(fingers@.subrange(0, n as int) =~= fingers@);
    let successor = match &config.successor {
        Some(s) => s.address(),
        None => {
            proof {
                reveal_strlit("undefined");
            }
            String::from_str("undefined")
        },
    };
    Ok(
        NodeInfo {
            node_hash: decimal_text(config.local.position),
            successor,
            others,
        },
    )
}

} // verus!
