//! The mathematical model of the application: the node, the tasks in store
//! order and the focus, with every operation as a function from model to
//! model.

use super::focus::SelectedPanel;
use super::task::{node_number, TaskId, TaskStatus, TaskView, Timestamp};
use vstd::prelude::*;

verus! {

/// Whether `index` is the first position of `ids` that holds `id`.
pub open spec fn is_first_position(ids: Seq<TaskId>, id: TaskId, index: int) -> bool {
    &&& 0 <= index < ids.len()
    &&& ids[index] == id
    &&& forall|before: int| 0 <= before < index ==> ids[before] != id
}

/// The first position of `ids` that holds `id`, if there is one.
pub open spec fn position_of(ids: Seq<TaskId>, id: TaskId) -> Option<int> {
    if exists|index: int| is_first_position(ids, id, index) {
        Some(choose|index: int| is_first_position(ids, id, index))
    } else {
        None
    }
}

/// A first position is the only one: `position_of` returns it.
pub proof fn lemma_position_found(ids: Seq<TaskId>, id: TaskId, index: int)
    requires
        is_first_position(ids, id, index),
    ensures
        position_of(ids, id) == Some(index),
{
    let chosen = choose|other: int| is_first_position(ids, id, other);
    assert(is_first_position(ids, id, chosen));
    assert(chosen == index) by {
        if chosen < index {
            assert(ids[chosen] != id);
        } else if index < chosen {
            assert(ids[index] != id);
        }
    }
}

/// An identity that stands nowhere in `ids` has no position.
pub proof fn lemma_position_absent(ids: Seq<TaskId>, id: TaskId)
    requires
        forall|index: int| 0 <= index < ids.len() ==> ids[index] != id,
    ensures
        position_of(ids, id) is None,
{
}

/// What `position_of` returns is a first position, and without one the
/// identity stands nowhere.
pub proof fn lemma_position_of(ids: Seq<TaskId>, id: TaskId)
    ensures
        match position_of(ids, id) {
            Some(index) => is_first_position(ids, id, index),
            None => forall|index: int| 0 <= index < ids.len() ==> ids[index] != id,
        },
{
    if position_of(ids, id) is None {
        assert forall|index: int| 0 <= index < ids.len() implies ids[index] != id by {
            if ids[index] == id {
                lemma_first_exists(ids, id, index);
            }
        }
    }
}

/// Where `id` stands at `index`, it has a first position at or before it.
proof fn lemma_first_exists(ids: Seq<TaskId>, id: TaskId, index: int)
    requires
        0 <= index < ids.len(),
        ids[index] == id,
    ensures
        exists|first: int| is_first_position(ids, id, first) && first <= index,
    decreases index,
{
    if exists|before: int| 0 <= before < index && ids[before] == id {
        let before = choose|before: int| 0 <= before < index && ids[before] == id;
        lemma_first_exists(ids, id, before);
    } else {
        assert(is_first_position(ids, id, index));
    }
}

/// The task that `add` makes: new, with nothing optional filled in.
pub open spec fn fresh_task(uuid: TaskId, title: Seq<char>, created: Timestamp) -> TaskView {
    TaskView {
        uuid,
        title,
        created,
        complete_by: None,
        description: None,
        status: TaskStatus::New,
        percentage: None,
    }
}

/// The application as a value: the node that identities are made for, the
/// tasks in store order, and the focus.
pub struct AppView {
    pub node: Seq<u8>,
    pub tasks: Seq<TaskView>,
    pub selected_panel: SelectedPanel,
}

impl AppView {
    /// The identities of the tasks, in store order.
    pub open spec fn ids(self) -> Seq<TaskId> {
        Seq::new(self.tasks.len(), |index: int| self.tasks[index].uuid)
    }

    /// No identity occurs twice in the store.
    pub open spec fn ids_distinct(self) -> bool {
        forall|i: int, j: int|
            0 <= i < j < self.tasks.len() ==> self.tasks[i].uuid != self.tasks[j].uuid
    }

    /// The first task with the identity `id`, if there is one.
    pub open spec fn find(self, id: TaskId) -> Option<TaskView> {
        match position_of(self.ids(), id) {
            Some(index) => Some(self.tasks[index]),
            None => None,
        }
    }

    /// The task at `index`, if the store reaches that far.
    pub open spec fn at(self, index: usize) -> Option<TaskView> {
        if index < self.tasks.len() {
            Some(self.tasks[index as int])
        } else {
            None
        }
    }

    /// The titles of the tasks, in store order.
    pub open spec fn titles(self) -> Seq<Seq<char>> {
        Seq::new(self.tasks.len(), |index: int| self.tasks[index].title)
    }

    /// The same application with another focus.
    pub open spec fn focused(self, panel: SelectedPanel) -> AppView {
        AppView { node: self.node, tasks: self.tasks, selected_panel: panel }
    }

    /// The application with `task` appended to the store.
    pub open spec fn with_task(self, task: TaskView) -> AppView {
        AppView {
            node: self.node,
            tasks: self.tasks.push(task),
            selected_panel: self.selected_panel,
        }
    }

    /// The application without the first task of identity `id`; unchanged
    /// where no task has it. The focus stays as it is, also where it was
    /// bound to the task that left.
    pub open spec fn without(self, id: TaskId) -> AppView {
        match position_of(self.ids(), id) {
            Some(index) => AppView {
                node: self.node,
                tasks: self.tasks.remove(index),
                selected_panel: self.selected_panel,
            },
            None => self,
        }
    }

    /// Whether `after` is this application with one new task added: the
    /// task stands last, has the identity `id`, a version 6 identity made
    /// for the application's node, and the given title; it was created at
    /// some time since the Unix epoch, is new, and has no optional field
    /// filled in. Nothing else differs.
    pub open spec fn gains(self, after: AppView, id: TaskId, title: Seq<char>) -> bool {
        &&& after.tasks.len() == self.tasks.len() + 1
        &&& after == self.with_task(fresh_task(id, title, after.tasks.last().created))
        &&& id.version() == 6
        &&& id.node() == node_number(self.node)
        &&& after.tasks.last().created.secs >= 0
        &&& after.tasks.last().created.nanos < 1_000_000_000
    }

    /// The application after a step to the next panel.
    pub open spec fn next_panel(self) -> AppView {
        self.focused(self.selected_panel.next_panel(self.ids()))
    }

    /// The application after a step to the previous panel.
    pub open spec fn previous_panel(self) -> AppView {
        self.focused(self.selected_panel.previous_panel(self.ids()))
    }

    /// The application after a move to the next field of the detail panel.
    pub open spec fn next_field(self) -> AppView {
        self.focused(self.selected_panel.next_field())
    }

    /// The application after a move to the previous field of the detail
    /// panel.
    pub open spec fn previous_field(self) -> AppView {
        self.focused(self.selected_panel.previous_field())
    }

    /// The application after one step forward of the focus.
    pub open spec fn advanced(self) -> AppView {
        self.focused(self.selected_panel.advanced(self.ids()))
    }

    /// The application after one step backward of the focus.
    pub open spec fn retreated(self) -> AppView {
        self.focused(self.selected_panel.retreated(self.ids()))
    }

    /// The application after a move down the list.
    pub open spec fn incremented(self) -> AppView {
        self.focused(self.selected_panel.incremented(self.tasks.len()))
    }

    /// The application after a move up the list.
    pub open spec fn decremented(self) -> AppView {
        self.focused(self.selected_panel.decremented(self.tasks.len()))
    }
}

/// Where no identity occurs twice, removing the task of identity `id` leaves
/// a store without a task of that identity, in which still none occurs
/// twice. The focus is not told: a title or detail panel that was bound to
/// `id` stays bound to it, and looking its identity up finds nothing.
pub proof fn removed_identity_is_gone(app: AppView, id: TaskId)
    requires
        app.ids_distinct(),
    ensures
        app.without(id).selected_panel == app.selected_panel,
        app.without(id).find(id) is None,
        app.without(id).ids_distinct(),
{
    let left = app.without(id);
    lemma_position_of(app.ids(), id);
    match position_of(app.ids(), id) {
        Some(position) => {
            assert forall|index: int| 0 <= index < left.ids().len() implies left.ids()[index]
                != id by {
                if index < position {
                    assert(app.ids()[index] != id);
                } else {
                    assert(app.tasks[position].uuid != app.tasks[index + 1].uuid);
                }
            }
            assert forall|i: int, j: int| 0 <= i < j < left.tasks.len() implies left.tasks[i].uuid
                != left.tasks[j].uuid by {
                let from_i = if i < position {
                    i
                } else {
                    i + 1
                };
                let from_j = if j < position {
                    j
                } else {
                    j + 1
                };
                assert(app.tasks[from_i].uuid != app.tasks[from_j].uuid);
            }
        },
        None => {},
    }
    lemma_position_absent(left.ids(), id);
}

/// Removing a task takes exactly one task out of the store where the
/// identity is present, and changes nothing where it is not.
pub proof fn removal_takes_one(app: AppView, id: TaskId)
    ensures
        app.find(id) is Some ==> app.without(id).tasks.len() == app.tasks.len() - 1,
        app.find(id) is None ==> app.without(id) == app,
{
    lemma_position_of(app.ids(), id);
}

/// A task appended to the store is found under its identity at the last
/// position, unless an earlier task has the same identity; the tasks that
/// were there keep their positions, and no identity occurs twice afterwards
/// exactly if none did before and the new one was not in the store.
pub proof fn appended_task_is_last(app: AppView, task: TaskView)
    ensures
        app.with_task(task).tasks.len() == app.tasks.len() + 1,
        app.with_task(task).tasks.last() == task,
        forall|index: int|
            0 <= index < app.tasks.len() ==> app.with_task(task).tasks[index] == app.tasks[index],
        app.find(task.uuid) is None ==> app.with_task(task).find(task.uuid) == Some(task),
        app.with_task(task).ids_distinct() <==> app.ids_distinct() && app.find(task.uuid) is None,
{
    let grown = app.with_task(task);
    let last = app.tasks.len() as int;
    lemma_position_of(app.ids(), task.uuid);
    if app.find(task.uuid) is None {
        assert(is_first_position(grown.ids(), task.uuid, last)) by {
            assert forall|before: int| 0 <= before < last implies grown.ids()[before]
                != task.uuid by {
                assert(app.ids()[before] != task.uuid);
            }
        }
        lemma_position_found(grown.ids(), task.uuid, last);
        if app.ids_distinct() {
            assert forall|i: int, j: int| 0 <= i < j < grown.tasks.len() implies grown.tasks[i].uuid
                != grown.tasks[j].uuid by {
                if j == last {
                    assert(app.ids()[i] != task.uuid);
                }
            }
        }
    } else {
        let position = position_of(app.ids(), task.uuid).unwrap();
        assert(grown.tasks[position].uuid == grown.tasks[last].uuid);
    }
    if grown.ids_distinct() {
        assert forall|i: int, j: int| 0 <= i < j < app.tasks.len() implies app.tasks[i].uuid
            != app.tasks[j].uuid by {
            assert(grown.tasks[i].uuid != grown.tasks[j].uuid);
        }
    }
}

} // verus!
