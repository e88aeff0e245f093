//! Reading and writing values: answered here when this node owns the key,
//! forwarded along the route otherwise.
use crate::node_config::{Node, NodeConfig, NodeError};
use crate::peer::{call_to_node, error_of_reply, reply_error, PeerCall, PeerReply, PeerRequest, Progress};
use crate::ring::{key_location, key_to_location};
use crate::router::{resolve, route_of, Route};
use vstd::prelude::*;

verus! {

/// `call` asks `node` for the value stored under `key`.
pub open spec fn reads_value(call: PeerCall, node: Node, key: Seq<char>) -> bool {
    &&& call.hostname == node.hostname
    &&& call.port == node.port
    &&& match call.request {
        PeerRequest::GetValue { key: k } => k@ == key,
        _ => false,
    }
}

/// `call` asks `node` to store `value` under `key`.
pub open spec fn writes_value(call: PeerCall, node: Node, key: Seq<char>, value: Seq<char>) -> bool {
    &&& call.hostname == node.hostname
    &&& call.port == node.port
    &&& match call.request {
        PeerRequest::PutValue { key: k, value: v } => k@ == key && v@ == value,
        _ => false,
    }
}

/// A read that went on to a peer.
pub struct ForwardedRead;

/// A write that went on to a peer; `value` is what was written.
pub struct ForwardedWrite {
    pub value: String,
}

/// Reads `key`, whose ring position is `location`.
pub fn get_storage_at(config: &NodeConfig, key: &str, location: u16) -> (r: Progress<ForwardedRead, String>)
    ensures
        config.crashed ==> r == Progress::<ForwardedRead, String>::Done(Err(NodeError::NodeUnavailable)),
        !config.crashed ==> match route_of(*config, location as int) {
            Ok(Route::Local) => if config.storage@.contains_key(key@) {
                r matches Progress::Done(Ok(v)) && v@ == config.storage@[key@]
            } else {
                r == Progress::<ForwardedRead, String>::Done(Err(NodeError::KeyNotFound))
            },
            Ok(Route::Forward(n)) => match r {
                Progress::Pending(_, call) => reads_value(call, n, key@),
                _ => false,
            },
            Err(e) => r == Progress::<ForwardedRead, String>::Done(Err(e)),
        },
{
    if config.is_crashed() {
        return Progress::Done(Err(NodeError::NodeUnavailable));
    }
    match resolve(config, location) {
        Err(e) => Progress::Done(Err(e)),
        Ok(Route::Local) => match config.storage.retrieve(key) {
            Some(v) => Progress::Done(Ok(v)),
            None => Progress::Done(Err(NodeError::KeyNotFound)),
        },
        Ok(Route::Forward(n)) => {
            let call = call_to_node(&n, PeerRequest::GetValue { key: key.to_owned() });
            Progress::Pending(ForwardedRead, call)
        },
    }
}

/// Reads `key`: from the local store when this node owns it, else by asking
/// the next peer on its route.
pub fn get_storage(config: &NodeConfig, key: &str) -> (r: Progress<ForwardedRead, String>)
    ensures
        config.crashed ==> r == Progress::<ForwardedRead, String>::Done(Err(NodeError::NodeUnavailable)),
        !config.crashed ==> match route_of(*config, key_location(key@)) {
            Ok(Route::Local) => if config.storage@.contains_key(key@) {
                r matches Progress::Done(Ok(v)) && v@ == config.storage@[key@]
            } else {
                r == Progress::<ForwardedRead, String>::Done(Err(NodeError::KeyNotFound))
            },
            Ok(Route::Forward(n)) => match r {
                Progress::Pending(_, call) => reads_value(call, n, key@),
                _ => false,
            },
            Err(e) => r == Progress::<ForwardedRead, String>::Done(Err(e)),
        },
{
    if config.is_crashed() {
        return Progress::Done(Err(NodeError::NodeUnavailable));
    }
    let location = key_to_location(key);
    get_storage_at(config, key, location)
}

impl ForwardedRead {
    /// The outcome of a forwarded read, relayed as the peer gave it.
    pub fn complete(self, reply: PeerReply) -> (r: Result<String, NodeError>)
        ensures
            match reply {
                PeerReply::Value(v) => r == Ok::<String, NodeError>(v),
                PeerReply::NotFound => r == Err::<String, NodeError>(NodeError::KeyNotFound),
                _ => r == Err::<String, NodeError>(reply_error(reply)),
            },
    {
        match reply {
            PeerReply::Value(v) => Ok(v),
            PeerReply::NotFound => Err(NodeError::KeyNotFound),
            other => Err(error_of_reply(&other)),
        }
    }
}

/// Stores `value` under `key`, whose ring position is `location`.
pub fn put_storage_at(config: &mut NodeConfig, key: &str, value: &str, location: u16) -> (r: Progress<
    ForwardedWrite,
    String,
>)
    ensures
        *final(config) == (NodeConfig { storage: final(config).storage, ..*old(config) }),
        old(config).crashed ==> r == Progress::<ForwardedWrite, String>::Done(
            Err(NodeError::NodeUnavailable),
        ) && final(config).storage@ == old(config).storage@,
        !old(config).crashed ==> match route_of(*old(config), location as int) {
            Ok(Route::Local) => {
                &&& r matches Progress::Done(Ok(v)) && v@ == value@
                &&& final(config).storage@ == old(config).storage@.insert(key@, value@)
            },
            Ok(Route::Forward(n)) => {
                &&& final(config).storage@ == old(config).storage@
                &&& match r {
                    Progress::Pending(w, call) => writes_value(call, n, key@, value@) && w.value@
                        == value@,
                    _ => false,
                }
            },
            Err(e) => r == Progress::<ForwardedWrite, String>::Done(Err(e))
                && final(config).storage@ == old(config).storage@,
        },
{
    if config.is_crashed() {
        return Progress::Done(Err(NodeError::NodeUnavailable));
    }
    match resolve(config, location) {
        Err(e) => Progress::Done(Err(e)),
        Ok(Route::Local) => {
            config.storage.store(key, value);
            Progress::Done(Ok(value.to_owned()))
        },
        Ok(Route::Forward(n)) => {
            let call = call_to_node(
                &n,
                PeerRequest::PutValue { key: key.to_owned(), value: value.to_owned() },
            );
            Progress::Pending(ForwardedWrite { value: value.to_owned() }, call)
        },
    }
}

/// Stores `value` under `key`: locally when this node owns it, else by
/// handing it to the next peer on its route.
pub fn put_storage(config: &mut NodeConfig, key: &str, value: &str) -> (r: Progress<
    ForwardedWrite,
    String,
>)
    ensures
        *final(config) == (NodeConfig { storage: final(config).storage, ..*old(config) }),
        old(config).crashed ==> r == Progress::<ForwardedWrite, String>::Done(
            Err(NodeError::NodeUnavailable),
        ) && final(config).storage@ == old(config).storage@,
        !old(config).crashed ==> match route_of(*old(config), key_location(key@)) {
            Ok(Route::Local) => {
                &&& r matches Progress::Done(Ok(v)) && v@ == value@
                &&& final(config).storage@ == old(config).storage@.insert(key@, value@)
            },
            Ok(Route::Forward(n)) => {
                &&& final(config).storage@ == old(config).storage@
                &&& match r {
                    Progress::Pending(w, call) => writes_value(call, n, key@, value@) && w.value@
                        == value@,
                    _ => false,
                }
            },
            Err(e) => r == Progress::<ForwardedWrite, String>::Done(Err(e))
                && final(config).storage@ == old(config).storage@,
        },
{
    if config.is_crashed() {
        return Progress::Done(Err(NodeError::NodeUnavailable));
    }
    let location = key_to_location(key);
    put_storage_at(config, key, value, location)
}

impl ForwardedWrite {
    /// The outcome of a forwarded write: the value once the peer acknowledged it.
    pub fn complete(self, reply: PeerReply) -> (r: Result<String, NodeError>)
        ensures
            match reply {
                PeerReply::Acknowledged => r == Ok::<String, NodeError>(self.value),
                _ => r == Err::<String, NodeError>(reply_error(reply)),
            },
    {
        match reply {
            PeerReply::Acknowledged => Ok(self.value),
            other => Err(error_of_reply(&other)),
        }
    }
}

} // verus!
