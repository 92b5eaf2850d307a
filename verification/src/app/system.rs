//! What the process takes from its surroundings: random node bytes, the
//! clock, and fresh identities. Each function here is trusted: its body calls
//! another crate, and its contract states what that crate documents.

use super::task::{node_number, TaskId, Timestamp};
use rand::Rng;
use vstd::prelude::*;

verus! {

/// Six random bytes from `rand::thread_rng().gen()`, to serve as the node of
/// every identity made by this process. Nothing is claimed of their values.
#[verifier::external_body]
pub(crate) fn random_node() -> (node: [u8; 6]) {
    rand::thread_rng().gen()
}

/// The current time from `chrono::Utc::now()`, taken apart by
/// `DateTime::timestamp` and `DateTime::timestamp_subsec_nanos`.
///
/// `Utc::now` measures the system clock as a duration since the Unix epoch
/// and panics when the clock stands before it, so the seconds it returns are
/// not negative and the nanoseconds lie below one second.
#[verifier::external_body]
pub(crate) fn utc_now() -> (now: Timestamp)
    ensures
        now.secs >= 0,
        now.nanos < 1_000_000_000,
{
    let now = chrono::Utc::now();
    Timestamp { secs: now.timestamp(), nanos: now.timestamp_subsec_nanos() }
}

/// A fresh identity from `uuid::Uuid::now_v6`, read as an integer by
/// `Uuid::as_u128`.
///
/// The identity is a version 6 UUID: its version field holds 6 and its last
/// six bytes are the node. The timestamp and the clock sequence that fill
/// the other fields come from the system clock and a counter shared by the
/// process; nothing is claimed of them, so two calls may return any two
/// identities of this shape.
#[verifier::external_body]
pub(crate) fn now_v6(node: &[u8; 6]) -> (id: TaskId)
    ensures
        id.version() == 6,
        id.node() == node_number(node@),
{
    TaskId { value: uuid::Uuid::now_v6(node).as_u128() }
}

} // verus!
