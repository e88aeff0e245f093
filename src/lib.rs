//! One participant of a Chord-style ring: identifier-space arithmetic, the
//! node's membership record, routing, finger tables and the join/leave
//! protocol, written as verified decision functions. Transport is left to the
//! caller, who performs each `PeerCall` and hands back the `PeerReply`.

pub mod endpoints;
pub mod finger_table;
pub mod key_value;
pub mod membership;
pub mod node_config;
pub mod peer;
pub mod ring;
pub mod router;
pub mod storage;
