//! The identifier space: a circle of `RING_SIZE` positions.
use sha1::{Digest, Sha1};
use vstd::prelude::*;

verus! {

/// Number of positions on the ring. Every node of one ring uses the same value.
pub const RING_SIZE: u32 = 65536;

/// Clockwise distance from `from` to `to`, in `[0, RING_SIZE)`.
pub open spec fn forward_distance(from: int, to: int) -> int {
    (to - from) % (RING_SIZE as int)
}

/// `location` lies in the half-open arc of `length` positions that starts at `start`.
pub open spec fn in_arc(location: int, start: int, length: int) -> bool {
    forward_distance(start, location) < length
}

/// The shortest way from `from` to `to`: positive clockwise, negative
/// counter-clockwise, in `(-RING_SIZE/2, RING_SIZE/2]`.
pub open spec fn signed_distance(from: int, to: int) -> int {
    let d = forward_distance(from, to);
    if d <= RING_SIZE / 2 {
        d
    } else {
        d - RING_SIZE
    }
}

/// Length of the arc from `from` up to (not including) `to`. A node whose
/// successor sits at its own position spans the whole ring.
pub open spec fn arc_length(from: int, to: int) -> int {
    let d = forward_distance(from, to);
    if d == 0 {
        RING_SIZE as int
    } else {
        d
    }
}

/// The SHA-1 digest of the UTF-8 encoding of a key.
pub uninterp spec fn sha1_digest_of(key: Seq<char>) -> Seq<u8>;

/// The ring position named by the first two bytes of a digest, big-endian.
pub open spec fn location_of(digest: Seq<u8>) -> int {
    digest[0] * 256 + digest[1]
}

/// The ring position of a key.
pub open spec fn key_location(key: Seq<char>) -> int {
    location_of(sha1_digest_of(key))
}

/// Relies on `sha1::Sha1` through `digest::Digest`: the 20-byte SHA-1 digest
/// of the key's bytes, which depends on those bytes alone.
#[verifier::external_body]
fn sha1_of_key(key: &str) -> (r: Vec<u8>)
    ensures
        r@ == sha1_digest_of(key@),
        r@.len() == 20,
{
    let mut hasher = Sha1::new();
    hasher.update(key.as_bytes());
    hasher.finalize().to_vec()
}

/// Reads a ring position from the first two bytes of a digest.
pub fn location_of_digest(digest: &[u8]) -> (r: u16)
    requires
        digest@.len() >= 2,
    ensures
        r == location_of(digest@),
{
    digest[0] as u16 * 256 + digest[1] as u16
}

/// Maps a key to its position on the ring. The same key gives the same
/// position in every process.
pub fn key_to_location(key: &str) -> (r: u16)
    ensures
        r == key_location(key@),
{
    let digest = sha1_of_key(key);
    location_of_digest(digest.as_slice())
}

/// Whether `location` falls in the arc `[position, position + range)` of the ring.
pub fn is_location_in_range(location: u16, position: u16, range: u32) -> (r: bool)
    ensures
        r == in_arc(location as int, position as int, range as int),
{
    let distance = forward_distance_between(position, location);
    distance < range
}

/// Clockwise distance from `from` to `to`.
pub fn forward_distance_between(from: u16, to: u16) -> (r: u32)
    ensures
        r == forward_distance(from as int, to as int),
        r < RING_SIZE,
{
    if to >= from {
        (to - from) as u32
    } else {
        RING_SIZE - from as u32 + to as u32
    }
}

/// Length of the arc that a node at `from` holds when its successor is at `to`.
pub fn arc_length_between(from: u16, to: u16) -> (r: u32)
    ensures
        r == arc_length(from as int, to as int),
        0 < r <= RING_SIZE,
{
    let d = forward_distance_between(from, to);
    if d == 0 {
        RING_SIZE
    } else {
        d
    }
}

/// Signed shortest distance from `from` to `to`; clockwise wins an exact tie.
pub fn shortest_distance_on_circumference(from: u16, to: u16) -> (r: i32)
    ensures
        r == signed_distance(from as int, to as int),
{
    let d = forward_distance_between(from, to);
    if d <= RING_SIZE / 2 {
        d as i32
    } else {
        d as i32 - RING_SIZE as i32
    }
}

/// The arc `[position, position + range)` read on the number line: one
/// interval when it stays below `RING_SIZE`, two when it wraps past it.
pub proof fn in_arc_as_intervals(location: u16, position: u16, range: u32)
    requires
        range <= RING_SIZE,
    ensures
        position + range <= RING_SIZE ==> (in_arc(location as int, position as int, range as int)
            <==> position <= location < position + range),
        position + range > RING_SIZE ==> (in_arc(location as int, position as int, range as int)
            <==> (location >= position || location < position + range - RING_SIZE)),
{
}

/// Antisymmetry of the signed distance, but for two points half a ring apart,
/// where both directions give `RING_SIZE / 2`.
pub proof fn signed_distance_antisymmetric(from: u16, to: u16)
    ensures
        signed_distance(from as int, to as int) == RING_SIZE / 2 ==> signed_distance(
            to as int,
            from as int,
        ) == RING_SIZE / 2,
        signed_distance(from as int, to as int) != RING_SIZE / 2 ==> signed_distance(
            from as int,
            to as int,
        ) == -signed_distance(to as int, from as int),
{
}

} // verus!
