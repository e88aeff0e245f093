//! Requests that this node sends to its peers, and the answers it gets back.
//! The library decides what to send; the transport sends it and reports the
//! outcome as a `PeerReply`.
use crate::node_config::{JoinNetworkInformation, Node, NodeError};
use vstd::prelude::*;

verus! {

/// The HTTP verb of a request that carries a body.
#[derive(Clone, Copy, Debug, PartialEq, Eq, Structural)]
pub enum WriteOperations {
    Post,
    Put,
    Delete,
}

/// What is asked of a peer.
#[derive(Clone, Debug, PartialEq, Eq)]
pub enum PeerRequest {
    /// The peer's successor.
    GetSuccessor,
    /// The peer's own identity.
    GetLocal,
    /// The ring's label and its longest-arc holder.
    GetJoinInformation,
    /// Relay the longest-arc query that `started_by` began.
    PostLongestRange { started_by: Node },
    /// Make `node` the peer's successor.
    PutSuccessor { node: Node },
    /// Make `node` the peer's precessor.
    PutPrecessor { node: Node },
    /// The value stored under `key`.
    GetValue { key: String },
    /// Store `value` under `key`.
    PutValue { key: String, value: String },
}

impl PeerRequest {
    /// The verb that carries the request's body; `None` for a plain read.
    pub fn write_operation(&self) -> (r: Option<WriteOperations>)
        ensures
            r == match *self {
                PeerRequest::PostLongestRange { .. } => Some(WriteOperations::Post),
                PeerRequest::PutSuccessor { .. } | PeerRequest::PutPrecessor { .. }
                | PeerRequest::PutValue { .. } => Some(WriteOperations::Put),
                _ => None::<WriteOperations>,
            },
    {
        match self {
            PeerRequest::PostLongestRange { .. } => Some(WriteOperations::Post),
            PeerRequest::PutSuccessor { .. } => Some(WriteOperations::Put),
            PeerRequest::PutPrecessor { .. } => Some(WriteOperations::Put),
            PeerRequest::PutValue { .. } => Some(WriteOperations::Put),
            _ => None,
        }
    }
}

/// A request addressed to a peer.
#[derive(Clone, Debug, PartialEq, Eq)]
pub struct PeerCall {
    pub hostname: String,
    pub port: u16,
    pub request: PeerRequest,
}

/// How a request to a peer ended.
#[derive(Clone, Debug, PartialEq, Eq)]
pub enum PeerReply {
    /// A ring identity (a successor, a peer's own identity, a longest-arc holder).
    Member(Node),
    JoinInformation(JoinNetworkInformation),
    /// A stored value.
    Value(String),
    /// The peer did what was asked.
    Acknowledged,
    /// The peer holds no value under the key.
    NotFound,
    /// No connection, a timeout or a failure status.
    Unreachable,
    /// An answer that could not be decoded.
    Malformed,
}

/// Where a multi-step operation stands: it waits for the answer to a call, or it is over.
pub enum Progress<P, T> {
    Pending(P, PeerCall),
    Done(Result<T, NodeError>),
}

/// A call to the peer identified by `node`.
pub open spec fn call_to(node: Node, request: PeerRequest) -> PeerCall {
    PeerCall { hostname: node.hostname, port: node.port, request }
}

/// A call to `node`.
pub fn call_to_node(node: &Node, request: PeerRequest) -> (r: PeerCall)
    ensures
        r == call_to(*node, request),
{
    PeerCall { hostname: node.hostname.clone(), port: node.port, request }
}

/// The error that a failed or unexpected answer stands for.
pub open spec fn reply_error(reply: PeerReply) -> NodeError {
    match reply {
        PeerReply::Unreachable => NodeError::PeerUnreachable,
        _ => NodeError::MalformedPeerResponse,
    }
}

/// The error that a failed or unexpected answer stands for.
pub fn error_of_reply(reply: &PeerReply) -> (r: NodeError)
    ensures
        r == reply_error(*reply),
{
    match reply {
        PeerReply::Unreachable => NodeError::PeerUnreachable,
        _ => NodeError::MalformedPeerResponse,
    }
}

} // verus!
