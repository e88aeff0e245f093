//! Deciding whether this node answers for a key, and where to forward it otherwise.
use crate::node_config::{Node, NodeConfig, NodeError};
use crate::ring::{in_arc, is_location_in_range, key_location, shortest_distance_on_circumference, signed_distance};
use vstd::prelude::*;

verus! {

/// Where a request for a key goes.
#[derive(Clone, Debug, PartialEq, Eq)]
pub enum Route {
    /// This node answers for the key.
    Local,
    /// The request goes on to this peer.
    Forward(Node),
}

/// How far `node` is from `location`, either way round.
pub open spec fn hop_distance(node: Node, location: int) -> int {
    let d = signed_distance(node.position as int, location);
    if d < 0 {
        -d
    } else {
        d
    }
}

/// The hop that a scan of `fingers` ends on when it starts from `start` and
/// takes an entry only when it is strictly nearer to `location`.
pub open spec fn nearest_hop(fingers: Seq<Node>, start: Node, location: int) -> Node
    decreases fingers.len(),
{
    if fingers.len() == 0 {
        start
    } else {
        let best = nearest_hop(fingers.drop_last(), start, location);
        let last = fingers.last();
        if hop_distance(last, location) < hop_distance(best, location) {
            last
        } else {
            best
        }
    }
}

/// The neighbour in the direction of `location`: the precessor when going
/// counter-clockwise is shorter, else the successor.
pub open spec fn default_hop(config: NodeConfig, location: int) -> Option<Node> {
    if signed_distance(config.local.position as int, location) < 0 {
        config.precessor
    } else {
        config.successor
    }
}

/// The route of a request for `location`, or `NotConnected` when the
/// neighbour to forward to is not known.
pub open spec fn route_of(config: NodeConfig, location: int) -> Result<Route, NodeError> {
    if in_arc(location, config.local.position as int, config.local.range as int) {
        Ok(Route::Local)
    } else {
        match default_hop(config, location) {
            None => Err(NodeError::NotConnected),
            Some(n) => Ok(Route::Forward(nearest_hop(config.finger_table@, n, location))),
        }
    }
}

/// Distance between a node and a location, either way round.
fn distance_to(node: &Node, location: u16) -> (r: i32)
    ensures
        r == hop_distance(*node, location as int),
{
    let d = shortest_distance_on_circumference(node.position, location);
    if d < 0 {
        -d
    } else {
        d
    }
}

/// Decides whether this node answers for `location` or which peer is nearest to it.
pub fn resolve(config: &NodeConfig, location: u16) -> (r: Result<Route, NodeError>)
    ensures
        r == route_of(*config, location as int),
{
    if is_location_in_range(location, config.local.position, config.local.range) {
        return Ok(Route::Local);
    }
    let start = if shortest_distance_on_circumference(config.local.position, location) < 0 {
        &config.precessor
    } else {
        &config.successor
    };
    let mut best = match start {
        None => {
            return Err(NodeError::NotConnected);
        },
        Some(n) => n.snapshot(),
    };
    let ghost first = best;
    let mut best_distance = distance_to(&best, location);
    let fingers = &config.finger_table;
    let n = fingers.len();
    let mut i: usize = 0;
    while i < n
        invariant
            n == fingers@.len(),
            0 <= i <= n,
            best == nearest_hop(fingers@.subrange(0, i as int), first, location as int),
            best_distance == hop_distance(best, location as int),
        decreases n - i,
    {
        let d = distance_to(&fingers[i], location);
        assert(fingers@.subrange(0, i + 1).drop_last() =~= fingers@.subrange(0, i as int));
        if d < best_distance {
            best = fingers[i].snapshot();
            best_distance = d;
        }
        i = i + 1;
    }
    assert(fingers@.subrange(0, n as int) =~= fingers@);
    Ok(Route::Forward(best))
}

/// Routing looks at the membership snapshot alone: two records that agree on
/// the node's identity, neighbours and finger table send every key the same way.
pub proof fn routing_is_deterministic(c1: NodeConfig, c2: NodeConfig, key: Seq<char>)
    requires
        c1.local == c2.local,
        c1.successor == c2.successor,
        c1.precessor == c2.precessor,
        c1.finger_table@ == c2.finger_table@,
    ensures
        route_of(c1, key_location(key)) == route_of(c2, key_location(key)),
{
}

} // verus!
