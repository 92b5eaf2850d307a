//! The task entity: identity, timestamps, status and the free-form fields.

use super::system::now_v6;
use vstd::prelude::*;

verus! {

/// The identity of a task: the 128 bits of a version 6 UUID, most significant
/// byte first. Identities are ordered as integers, which for version 6 is the
/// order of their creation times.
#[derive(Clone, Copy, Debug, PartialEq, Eq, Structural, Hash)]
pub struct TaskId {
    pub value: u128,
}

impl TaskId {
    /// The version field: bits 76 to 79.
    pub open spec fn version(self) -> u128 {
        (self.value >> 76) & 0xf
    }

    /// The node field: the low 48 bits.
    pub open spec fn node(self) -> u128 {
        self.value & 0xffff_ffff_ffff
    }

    /// The variant field: bits 62 and 63.
    pub open spec fn variant(self) -> u128 {
        (self.value >> 62) & 0x3
    }

    /// The clock sequence of a version 6 identity: bits 48 to 61.
    pub open spec fn sequence(self) -> u128 {
        (self.value >> 48) & 0x3fff
    }

    /// The time of a version 6 identity, in ticks of 100 nanoseconds: the
    /// upper 48 bits of the time stand above the version field, the lower 12
    /// bits below it.
    pub open spec fn ticks(self) -> u128 {
        (self.value >> 80) << 12 | (self.value >> 64) & 0xfff
    }

    /// Whether `self` orders strictly before `other`.
    pub open spec fn precedes(self, other: TaskId) -> bool {
        self.value < other.value
    }

    /// Tells whether this identity was created before `other`.
    pub fn created_before(&self, other: &TaskId) -> (r: bool)
        ensures
            r == self.precedes(*other),
    {
        self.value < other.value
    }
}

/// The number that six node bytes spell, most significant byte first.
pub open spec fn node_number(node: Seq<u8>) -> u128
    recommends
        node.len() == 6,
{
    (node[0] as u128) << 40 | (node[1] as u128) << 32 | (node[2] as u128) << 24
        | (node[3] as u128) << 16 | (node[4] as u128) << 8 | (node[5] as u128)
}

/// A point in time: whole seconds since the Unix epoch and the nanoseconds
/// into that second.
#[derive(Clone, Copy, Debug, PartialEq, Eq, Structural)]
pub struct Timestamp {
    pub secs: i64,
    pub nanos: u32,
}

/// How far a task has come.
#[derive(Clone, Copy, Debug, PartialEq, Eq, Structural)]
pub enum TaskStatus {
    New,
    InProgress,
    Completed,
}

/// One task of the store.
#[derive(Debug, PartialEq, Eq)]
pub struct Task {
    /// The identity, given at creation and never changed.
    pub uuid: TaskId,
    /// The line shown in the list.
    pub title: String,
    /// When the task was created.
    pub created: Timestamp,
    /// When the task is due, if it is.
    pub complete_by: Option<Timestamp>,
    /// Free text.
    pub description: Option<String>,
    pub status: TaskStatus,
    /// Progress in percent, whatever the status says.
    pub percentage: Option<u8>,
}

/// The mathematical value of a task.
pub struct TaskView {
    pub uuid: TaskId,
    pub title: Seq<char>,
    pub created: Timestamp,
    pub complete_by: Option<Timestamp>,
    pub description: Option<Seq<char>>,
    pub status: TaskStatus,
    pub percentage: Option<u8>,
}

impl View for Task {
    type V = TaskView;

    open spec fn view(&self) -> TaskView {
        TaskView {
            uuid: self.uuid,
            title: self.title@,
            created: self.created,
            complete_by: self.complete_by,
            description: match self.description {
                Some(text) => Some(text@),
                None => None,
            },
            status: self.status,
            percentage: self.percentage,
        }
    }
}

/// Each of six bytes can be read back from the number that they spell.
proof fn lemma_node_bytes(b0: u8, b1: u8, b2: u8, b3: u8, b4: u8, b5: u8)
    ensures
        ({
            let number = (b0 as u128) << 40 | (b1 as u128) << 32 | (b2 as u128) << 24 | (b3 as u128)
                << 16 | (b4 as u128) << 8 | (b5 as u128);
            &&& (number >> 40) & 0xff == b0
            &&& (number >> 32) & 0xff == b1
            &&& (number >> 24) & 0xff == b2
            &&& (number >> 16) & 0xff == b3
            &&& (number >> 8) & 0xff == b4
            &&& number & 0xff == b5
        }),
{
    assert({
        let number = (b0 as u128) << 40 | (b1 as u128) << 32 | (b2 as u128) << 24 | (b3 as u128)
            << 16 | (b4 as u128) << 8 | (b5 as u128);
        &&& (number >> 40) & 0xff == b0
        &&& (number >> 32) & 0xff == b1
        &&& (number >> 24) & 0xff == b2
        &&& (number >> 16) & 0xff == b3
        &&& (number >> 8) & 0xff == b4
        &&& number & 0xff == b5
    }) by (bit_vector);
}

/// Among identities of one version, the one with the earlier time orders
/// first; at the same time and with the same variant, the one with the
/// smaller clock sequence does.
pub proof fn earlier_time_orders_first(first: TaskId, second: TaskId)
    requires
        first.version() == second.version(),
        first.ticks() < second.ticks() || (first.ticks() == second.ticks() && first.variant()
            == second.variant() && first.sequence() < second.sequence()),
    ensures
        first.precedes(second),
{
    let a = first.value;
    let b = second.value;
    assert(a < b) by (bit_vector)
        requires
            (a >> 76) & 0xf == (b >> 76) & 0xf,
            ((a >> 80) << 12 | (a >> 64) & 0xfff) < ((b >> 80) << 12 | (b >> 64) & 0xfff) || (((a
                >> 80) << 12 | (a >> 64) & 0xfff) == ((b >> 80) << 12 | (b >> 64) & 0xfff) && (a
                >> 62) & 0x3 == (b >> 62) & 0x3 && (a >> 48) & 0x3fff < (b >> 48) & 0x3fff),
    ;
}

/// Identities made for different nodes are different, whatever the clock
/// said when they were made.
pub proof fn other_node_other_identity(
    first: TaskId,
    second: TaskId,
    first_node: Seq<u8>,
    second_node: Seq<u8>,
)
    requires
        first_node.len() == 6,
        second_node.len() == 6,
        first.node() == node_number(first_node),
        second.node() == node_number(second_node),
        first_node != second_node,
    ensures
        first != second,
{
    if first == second {
        lemma_node_bytes(
            first_node[0],
            first_node[1],
            first_node[2],
            first_node[3],
            first_node[4],
            first_node[5],
        );
        lemma_node_bytes(
            second_node[0],
            second_node[1],
            second_node[2],
            second_node[3],
            second_node[4],
            second_node[5],
        );
        assert(first_node =~= second_node);
    }
}

impl Task {
    /// Makes a task with a fresh identity generated for `uuid_node`; every
    /// other field is the argument of its name.
    pub fn new(
        uuid_node: &[u8; 6],
        title: String,
        created: Timestamp,
        complete_by: Option<Timestamp>,
        description: Option<String>,
        status: TaskStatus,
        percentage: Option<u8>,
    ) -> (task: Task)
        ensures
            task.uuid.version() == 6,
            task.uuid.node() == node_number(uuid_node@),
            task.title == title,
            task.created == created,
            task.complete_by == complete_by,
            task.description == description,
            task.status == status,
            task.percentage == percentage,
    {
        Task { uuid: now_v6(uuid_node), title, created, complete_by, description, status, percentage }
    }
}

} // verus!
