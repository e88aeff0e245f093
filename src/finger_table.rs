//! Building the finger table: walk the ring through successor pointers, then
//! sample the members at an even stride.
use crate::node_config::{same_address, snapshot_nodes, Node, NodeConfig, NodeError};
use crate::peer::{call_to, call_to_node, error_of_reply, reply_error, PeerReply, PeerRequest, Progress};
use vstd::prelude::*;

verus! {

/// The table of `size` entries drawn from `members` at stride `members.len() / size`.
pub open spec fn sampled(members: Seq<Node>, size: nat) -> Seq<Node> {
    Seq::new(size, |i: int| members[(i * (members.len() / size) as int) % members.len() as int])
}

/// Samples `size` entries from the ring's members, taken in ring order from
/// this node: entry `i` is `members[(i * stride) % n]` with `stride = n / size`.
pub fn sample_finger_table(members: &Vec<Node>, size: u16) -> (r: Result<Vec<Node>, NodeError>)
    ensures
        members@.len() < size ==> r == Err::<Vec<Node>, NodeError>(NodeError::InsufficientMembers),
        size <= members@.len() ==> (r matches Ok(t) && t@ == sampled(members@, size as nat)),
{
    let n = members.len();
    let size = size as usize;
    if n < size {
        return Err(NodeError::InsufficientMembers);
    }
    let mut table: Vec<Node> = Vec::new();
    if size == 0 {
        assert(table@ =~= sampled(members@, 0));
        return Ok(table);
    }
    let step = n / size;
    let mut i: usize = 0;
    while i < size
        invariant
            n == members@.len(),
            0 < size <= n,
            step == n / size,
            0 <= i <= size,
            table@ =~= sampled(members@, size as nat).subrange(0, i as int),
        decreases size - i,
    {
        assert(i * step < n) by (nonlinear_arith)
            requires
                i < size,
                step == n / size,
                0 < size <= n,
        {
            assert(step * size <= n);
            assert(i * step <= (size - 1) * step);
        }
        let index = (i * step) % n;
        table.push(members[index].snapshot());
        i = i + 1;
    }
    Ok(table)
}

/// The sampling law: a table built from the members met on a walk that began
/// at `local` has exactly `size` entries, begins with `local`, and entry `i`
/// is the member at `(i * (n / size)) % n` in walk order.
pub proof fn finger_table_sampling(members: Seq<Node>, local: Node, size: nat)
    requires
        1 <= size <= members.len(),
        members[0] == local,
    ensures
        sampled(members, size).len() == size,
        sampled(members, size)[0] == local,
        forall|i: int|
            0 <= i < size ==> #[trigger] sampled(members, size)[i] == members[(i * (members.len()
                / size) as int) % members.len() as int],
{
    assert(0 * (members.len() / size) as int == 0);
    assert((0int % members.len() as int) == 0);
}

/// A walk around the ring in progress: `members` holds the nodes met so far,
/// this node first; the pending call asks the last of them for its successor.
pub struct FingerTableWalk {
    pub size: u16,
    pub local: Node,
    pub members: Vec<Node>,
}

impl FingerTableWalk {
    /// The walk began at `local`: `local` comes first, and at least one other
    /// member has been met.
    pub open spec fn began_at_local(&self) -> bool {
        &&& self.members@.len() >= 2
        &&& self.members@[0] == self.local
    }

    /// Ends the walk: samples the members into the finger table.
    fn finish(members: &Vec<Node>, size: u16, config: &mut NodeConfig) -> (r: Result<(), NodeError>)
        ensures
            members@.len() < size ==> r == Err::<(), NodeError>(NodeError::InsufficientMembers)
                && *final(config) == *old(config),
            size <= members@.len() ==> r is Ok && *final(config) == (NodeConfig {
                finger_table: final(config).finger_table,
                ..*old(config)
            }) && final(config).finger_table@ == sampled(members@, size as nat),
    {
        match sample_finger_table(members, size) {
            Ok(table) => {
                config.finger_table = table;
                Ok(())
            },
            Err(e) => Err(e),
        }
    }

    /// Goes on to `next`, the successor reported for the last member.
    fn visit(self, next: Node, config: &mut NodeConfig) -> (r: Progress<FingerTableWalk, ()>)
        ensures
            same_address(next, self.local) ==> {
                &&& self.members@.len() < self.size ==> r == Progress::<FingerTableWalk, ()>::Done(
                    Err(NodeError::InsufficientMembers),
                ) && *final(config) == *old(config)
                &&& self.size <= self.members@.len() ==> r == Progress::<FingerTableWalk, ()>::Done(
                    Ok(()),
                ) && *final(config) == (NodeConfig {
                    finger_table: final(config).finger_table,
                    ..*old(config)
                }) && final(config).finger_table@ == sampled(self.members@, self.size as nat)
            },
            !same_address(next, self.local) ==> *final(config) == *old(config) && match r {
                Progress::Pending(w, call) => {
                    &&& w.size == self.size
                    &&& w.local == self.local
                    &&& w.members@ == self.members@.push(next)
                    &&& call == call_to(next, PeerRequest::GetSuccessor)
                },
                _ => false,
            },
    {
        if next.same_address(&self.local) {
            match Self::finish(&self.members, self.size, config) {
                Ok(()) => Progress::Done(Ok(())),
                Err(e) => Progress::Done(Err(e)),
            }
        } else {
            let call = call_to_node(&next, PeerRequest::GetSuccessor);
            let mut members = self.members;
            members.push(next);
            Progress::Pending(FingerTableWalk { size: self.size, local: self.local, members }, call)
        }
    }

    /// Takes the answer to the pending successor request.
    pub fn step(self, config: &mut NodeConfig, reply: PeerReply) -> (r: Progress<FingerTableWalk, ()>)
        ensures
            match reply {
                PeerReply::Member(next) => if same_address(next, self.local) {
                    if self.members@.len() < self.size {
                        r == Progress::<FingerTableWalk, ()>::Done(Err(NodeError::InsufficientMembers))
                            && *final(config) == *old(config)
                    } else {
                        r == Progress::<FingerTableWalk, ()>::Done(Ok(())) && *final(config) == (
                        NodeConfig { finger_table: final(config).finger_table, ..*old(config) })
                            && final(config).finger_table@ == sampled(self.members@, self.size as nat)
                    }
                } else {
                    *final(config) == *old(config) && match r {
                        Progress::Pending(w, call) => {
                            &&& w.size == self.size
                            &&& w.local == self.local
                            &&& w.members@ == self.members@.push(next)
                            &&& call == call_to(next, PeerRequest::GetSuccessor)
                        },
                        _ => false,
                    }
                },
                _ => r == Progress::<FingerTableWalk, ()>::Done(Err(reply_error(reply)))
                    && *final(config) == *old(config),
            },
            self.began_at_local() ==> match r {
                Progress::Pending(w, _) => w.began_at_local(),
                _ => true,
            },
            self.began_at_local() && (r matches Progress::Done(Ok(_))) ==> {
                &&& final(config).finger_table@.len() == self.size
                &&& self.size >= 1 ==> final(config).finger_table@[0] == self.local
            },
    {
        let ghost members = self.members@;
        let ghost size = self.size;
        let r = match reply {
            PeerReply::Member(next) => self.visit(next, config),
            other => Progress::Done(Err(error_of_reply(&other))),
        };
        proof {
            if members.len() >= 2 && size >= 1 && size <= members.len() {
                finger_table_sampling(members, members[0], size as nat);
            }
        }
        r
    }
}

/// Starts rebuilding the finger table with `size` entries. A ring of one node
/// is done at once; otherwise the walk asks the successor for its successor.
pub fn calculate_finger_table(config: &mut NodeConfig, size: u16) -> (r: Progress<FingerTableWalk, ()>)
    ensures
        old(config).crashed ==> r == Progress::<FingerTableWalk, ()>::Done(
            Err(NodeError::NodeUnavailable),
        ) && *final(config) == *old(config),
        !old(config).crashed && !old(config).connected ==> r == Progress::<FingerTableWalk, ()>::Done(
            Err(NodeError::NotConnected),
        ) && *final(config) == *old(config),
        !old(config).crashed && old(config).connected ==> match old(config).successor {
            None => r == Progress::<FingerTableWalk, ()>::Done(Err(NodeError::NotConnected))
                && *final(config) == *old(config),
            Some(s) => {
            let local = old(config).local;
            if same_address(s, local) {
                if size > 1 {
                    r == Progress::<FingerTableWalk, ()>::Done(Err(NodeError::InsufficientMembers))
                        && *final(config) == *old(config)
                } else {
                    r == Progress::<FingerTableWalk, ()>::Done(Ok(())) && *final(config) == (
                    NodeConfig { finger_table: final(config).finger_table, ..*old(config) })
                        && final(config).finger_table@ == sampled(seq![local], size as nat)
                }
            } else {
                *final(config) == *old(config) && match r {
                    Progress::Pending(w, call) => {
                        &&& w.size == size
                        &&& w.local == local
                        &&& w.members@ == seq![local, s]
                        &&& call == call_to(s, PeerRequest::GetSuccessor)
                    },
                    _ => false,
                }
            }
            },
        },
        match r {
            Progress::Pending(w, _) => w.began_at_local() && w.local == old(config).local,
            _ => true,
        },
        (r matches Progress::Done(Ok(_))) ==> {
            &&& final(config).finger_table@.len() == size
            &&& size >= 1 ==> final(config).finger_table@[0] == old(config).local
        },
{
    if config.is_crashed() {
        return Progress::Done(Err(NodeError::NodeUnavailable));
    }
    if !config.connected {
        return Progress::Done(Err(NodeError::NotConnected));
    }
    let successor = match &config.successor {
        None => {
            return Progress::Done(Err(NodeError::NotConnected));
        },
        Some(s) => s.snapshot(),
    };
    let local = config.local.snapshot();
    let mut members: Vec<Node> = Vec::new();
    members.push(local.snapshot());
    let walk = FingerTableWalk { size, local, members };
    assert(walk.members@ =~= seq![walk.local]);
    let r = walk.visit(successor, config);
    proof {
        if size == 1 {
            finger_table_sampling(seq![walk.local], walk.local, 1);
        }
        if !same_address(successor, walk.local) {
            assert(seq![walk.local].push(successor) =~= seq![walk.local, successor]);
        }
    }
    r
}

} // verus!
