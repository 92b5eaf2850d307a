//! The task store and the focus state machine that navigates it.

pub mod focus;
pub mod load;
pub mod model;
mod system;
pub mod task;

use focus::{bind, release, SelectedPanel, SelectedTaskField};
use load::{load_result, FileOutcome, LoadError};
use model::{is_first_position, lemma_position_absent, lemma_position_found, AppView};
use system::{random_node, utc_now};
use task::{Task, TaskId, TaskStatus, TaskView};
use vstd::arithmetic::div_mod::{
    lemma_add_mod_noop, lemma_fundamental_div_mod, lemma_fundamental_div_mod_converse,
    lemma_mod_bound, lemma_small_mod,
};
use vstd::prelude::*;

verus! {

/// The values of `tasks`, position by position.
pub open spec fn task_views(tasks: Seq<Task>) -> Seq<TaskView> {
    Seq::new(tasks.len(), |index: int| tasks[index]@)
}

/// The application: the store of tasks, the focus, and the node for which
/// the identities of new tasks are made. It owns all three; nothing else
/// changes them.
pub struct App {
    uuid_node: [u8; 6],
    tasks: Vec<Task>,
    selected_panel: SelectedPanel,
}

impl View for App {
    type V = AppView;

    closed spec fn view(&self) -> AppView {
        AppView {
            node: self.uuid_node@,
            tasks: task_views(self.tasks@),
            selected_panel: self.selected_panel,
        }
    }
}

/// The tasks that an application starts with: those that were loaded, and
/// none where there was nothing to load or the load failed.
pub open spec fn starting_tasks(source: Option<Result<Vec<Task>, LoadError>>) -> Seq<TaskView> {
    match source {
        Some(Ok(tasks)) => task_views(tasks@),
        _ => Seq::empty(),
    }
}

/// An application that starts from the result of a load holds exactly the
/// tasks that were read from the file, in the file's order, and none where
/// reading failed.
pub proof fn store_starts_as_loaded(
    filepath: Option<&str>,
    outcome: FileOutcome,
    result: Result<Vec<Task>, LoadError>,
)
    requires
        load_result(filepath, outcome, result),
    ensures
        starting_tasks(Some(result)) == match outcome {
            FileOutcome::Loaded(tasks) => task_views(tasks@),
            _ => Seq::empty(),
        },
{
}

impl App {
    /// An application with a node of its own, drawn at random. It holds the
    /// tasks of `source` where a load succeeded, and none where the load
    /// failed or there was nothing to load; no panel is active.
    pub fn new(source: Option<Result<Vec<Task>, LoadError>>) -> (app: App)
        ensures
            app@.tasks == starting_tasks(source),
            app@.selected_panel == SelectedPanel::Unfocused,
    {
        let tasks = match source {
            Some(Ok(tasks)) => tasks,
            _ => Vec::new(),
        };
        App::with_node(random_node(), tasks)
    }

    /// An application for the node `uuid_node` that holds `tasks`, with no
    /// panel active.
    pub fn with_node(uuid_node: [u8; 6], tasks: Vec<Task>) -> (app: App)
        ensures
            app@.node == uuid_node@,
            app@.tasks == task_views(tasks@),
            app@.selected_panel == SelectedPanel::Unfocused,
    {
        App { uuid_node, tasks, selected_panel: SelectedPanel::Unfocused }
    }

    /// Appends `task` as it is, identity included.
    pub fn append_task(&mut self, task: Task)
        ensures
            final(self)@ == old(self)@.with_task(task@),
    {
        self.tasks.push(task);
        assert(task_views(self.tasks@) =~= task_views(old(self).tasks@).push(task@));
    }

    /// Adds a new task with the given title at the end of the store and
    /// returns its identity. The identity is made for the application's node
    /// and the creation time is read from the clock; the task is new, and its
    /// optional fields are absent.
    pub fn add_task(&mut self, title: String) -> (id: TaskId)
        ensures
            old(self)@.gains(final(self)@, id, title@),
    {
        let task = Task::new(
            &self.uuid_node,
            title,
            utc_now(),
            None,
            None,
            TaskStatus::New,
            None,
        );
        let id = task.uuid;
        self.append_task(task);
        id
    }

    /// Removes the first task with the identity `uuid`; does nothing where no
    /// task has it. The focus is left as it is.
    pub fn remove_task(&mut self, uuid: TaskId)
        ensures
            final(self)@ == old(self)@.without(uuid),
    {
        let mut index: usize = 0;
        while index < self.tasks.len()
            invariant
                *self == *old(self),
                index <= self.tasks.len(),
                forall|before: int| 0 <= before < index ==> self@.ids()[before] != uuid,
            decreases self.tasks.len() - index,
        {
            if self.tasks[index].uuid == uuid {
                proof {
                    assert(is_first_position(self@.ids(), uuid, index as int));
                    lemma_position_found(self@.ids(), uuid, index as int);
                }
                self.tasks.remove(index);
                assert(task_views(self.tasks@) =~= task_views(old(self).tasks@).remove(
                    index as int,
                ));
                return ;
            }
            index += 1;
        }
        proof {
            lemma_position_absent(self@.ids(), uuid);
        }
    }

    /// The tasks, in store order.
    pub fn get_tasks(&self) -> (tasks: &Vec<Task>)
        ensures
            task_views(tasks@) == self@.tasks,
    {
        &self.tasks
    }

    /// The titles of the tasks, in store order.
    pub fn get_tasks_titles(&self) -> (titles: Vec<String>)
        ensures
            titles@.len() == self@.tasks.len(),
            forall|index: int|
                0 <= index < titles@.len() ==> (#[trigger] titles@[index])@
                    == self@.titles()[index],
    {
        let mut titles: Vec<String> = Vec::new();
        let mut index: usize = 0;
        while index < self.tasks.len()
            invariant
                index <= self.tasks.len(),
                titles@.len() == index,
                forall|done: int|
                    0 <= done < index ==> (#[trigger] titles@[done])@ == self.tasks@[done].title@,
            decreases self.tasks.len() - index,
        {
            titles.push(self.tasks[index].title.clone());
            index += 1;
        }
        titles
    }

    /// The first task with the identity `uuid`, if the store has one.
    pub fn get_task_by_uuid(&self, uuid: TaskId) -> (found: Option<&Task>)
        ensures
            match found {
                Some(task) => self@.find(uuid) == Some(task@),
                None => self@.find(uuid) is None,
            },
    {
        let mut index: usize = 0;
        while index < self.tasks.len()
            invariant
                index <= self.tasks.len(),
                forall|before: int| 0 <= before < index ==> self@.ids()[before] != uuid,
            decreases self.tasks.len() - index,
        {
            if self.tasks[index].uuid == uuid {
                proof {
                    assert(is_first_position(self@.ids(), uuid, index as int));
                    lemma_position_found(self@.ids(), uuid, index as int);
                }
                return Some(&self.tasks[index]);
            }
            index += 1;
        }
        proof {
            lemma_position_absent(self@.ids(), uuid);
        }
        None
    }

    /// The task at `index`, if the store reaches that far.
    pub fn get_task_by_index(&self, index: usize) -> (found: Option<&Task>)
        ensures
            match found {
                Some(task) => self@.at(index) == Some(task@),
                None => self@.at(index) is None,
            },
    {
        if index < self.tasks.len() {
            Some(&self.tasks[index])
        } else {
            None
        }
    }

    /// The number of tasks in the store.
    pub fn get_tasks_size(&self) -> (size: usize)
        ensures
            size == self@.tasks.len(),
    {
        self.tasks.len()
    }

    /// The focus.
    pub fn get_selected_panel(&self) -> (panel: &SelectedPanel)
        ensures
            *panel == self@.selected_panel,
    {
        &self.selected_panel
    }

    /// The position selected in the list panel; none while another panel is
    /// active or the list has no selection.
    pub fn get_list_selected_index(&self) -> (selected: Option<usize>)
        ensures
            selected == match self@.selected_panel {
                SelectedPanel::List(selection) => selection,
                _ => None,
            },
    {
        if let SelectedPanel::List(Some(index)) = self.selected_panel {
            return Some(index);
        }
        None
    }

    /// Moves the list selection down by one, from the last position to the
    /// first.
    pub fn increment_list_selected_index(&mut self)
        ensures
            final(self)@ == old(self)@.incremented(),
    {
        if let SelectedPanel::List(Some(index)) = self.selected_panel {
            let len = self.tasks.len();
            if len > 0 {
                let next = (index % len + 1) % len;
                proof {
                    lemma_add_mod_noop(index as int, 1, len as int);
                    if len == 1 {
                        lemma_mod_bound(index as int + 1, 1);
                        lemma_mod_bound(index as int, 1);
                    } else {
                        lemma_small_mod(1, len as nat);
                    }
                }
                self.selected_panel = SelectedPanel::List(Some(next));
            }
        }
    }

    /// Moves the list selection up by one, from the first position to the
    /// last.
    pub fn decrement_list_selected_index(&mut self)
        ensures
            final(self)@ == old(self)@.decremented(),
    {
        if let SelectedPanel::List(Some(index)) = self.selected_panel {
            let len = self.tasks.len();
            if len > 0 {
                let rest = index % len;
                let next = if rest == 0 {
                    len - 1
                } else {
                    rest - 1
                };
                proof {
                    let quotient = index as int / len as int;
                    lemma_fundamental_div_mod(index as int, len as int);
                    if rest == 0 {
                        lemma_fundamental_div_mod_converse(
                            index + len - 1,
                            len as int,
                            quotient,
                            len - 1,
                        );
                    } else {
                        assert(index + len - 1 == (quotient + 1) * len + (rest - 1))
                            by (nonlinear_arith)
                            requires
                                index == len * quotient + rest,
                        ;
                        lemma_fundamental_div_mod_converse(
                            index + len - 1,
                            len as int,
                            quotient + 1,
                            rest - 1,
                        );
                    }
                }
                self.selected_panel = SelectedPanel::List(Some(next));
            }
        }
    }

    /// The position `selection` with the identity that stands there now.
    fn bind_selection(&self, selection: Option<usize>) -> (bound: Option<(usize, TaskId)>)
        ensures
            bound == bind(selection, self@.ids()),
    {
        match selection {
            Some(index) => if index < self.tasks.len() {
                Some((index, self.tasks[index].uuid))
            } else {
                None
            },
            None => None,
        }
    }

    /// The list selection that a panel bound to `index` goes back to.
    fn release_index(&self, index: usize) -> (selection: Option<usize>)
        ensures
            selection == release(index, self@.tasks.len()),
    {
        if index < self.tasks.len() {
            Some(index)
        } else {
            None
        }
    }

    /// Makes the next panel the active one.
    pub fn select_next_panel(&mut self)
        ensures
            final(self)@ == old(self)@.next_panel(),
    {
        let next = match self.selected_panel {
            SelectedPanel::Unfocused => SelectedPanel::List(self.first_selection()),
            SelectedPanel::List(selection) => SelectedPanel::Title(self.bind_selection(selection)),
            SelectedPanel::Title(Some((index, id))) => SelectedPanel::Task(
                Some((index, id, SelectedTaskField::Status)),
            ),
            SelectedPanel::Title(None) => SelectedPanel::Task(None),
            SelectedPanel::Task(Some((index, _, _))) => SelectedPanel::List(
                self.release_index(index),
            ),
            SelectedPanel::Task(None) => SelectedPanel::List(None),
        };
        self.selected_panel = next;
    }

    /// Makes the previous panel the active one.
    pub fn select_previous_panel(&mut self)
        ensures
            final(self)@ == old(self)@.previous_panel(),
    {
        let previous = match self.selected_panel {
            SelectedPanel::Unfocused => SelectedPanel::List(self.first_selection()),
            SelectedPanel::List(selection) => match self.bind_selection(selection) {
                Some((index, id)) => SelectedPanel::Task(
                    Some((index, id, SelectedTaskField::Description)),
                ),
                None => SelectedPanel::Task(None),
            },
            SelectedPanel::Task(Some((index, id, _))) => SelectedPanel::Title(Some((index, id))),
            SelectedPanel::Task(None) => SelectedPanel::Title(None),
            SelectedPanel::Title(Some((index, _))) => SelectedPanel::List(
                self.release_index(index),
            ),
            SelectedPanel::Title(None) => SelectedPanel::List(None),
        };
        self.selected_panel = previous;
    }

    /// The selection that the list panel starts with.
    fn first_selection(&self) -> (selection: Option<usize>)
        ensures
            selection == focus::first_selection(self@.tasks.len()),
    {
        if self.tasks.len() > 0 {
            Some(0)
        } else {
            None
        }
    }

    /// Selects the next field of the detail panel; does nothing while the
    /// detail panel is not active or shows no task.
    pub fn select_next_task_field(&mut self)
        ensures
            final(self)@ == old(self)@.next_field(),
    {
        if let SelectedPanel::Task(Some((index, id, field))) = self.selected_panel {
            self.selected_panel = SelectedPanel::Task(Some((index, id, field.next())));
        }
    }

    /// Selects the previous field of the detail panel; does nothing while the
    /// detail panel is not active or shows no task.
    pub fn select_previous_task_field(&mut self)
        ensures
            final(self)@ == old(self)@.previous_field(),
    {
        if let SelectedPanel::Task(Some((index, id, field))) = self.selected_panel {
            self.selected_panel = SelectedPanel::Task(Some((index, id, field.previous())));
        }
    }

    /// Moves the focus one step forward: to the next field inside the detail
    /// panel, and past its last field, as from every other state, to the
    /// next panel.
    pub fn advance_focus(&mut self)
        ensures
            final(self)@ == old(self)@.advanced(),
    {
        match self.selected_panel {
            SelectedPanel::Task(Some((_, _, field))) => {
                if field != SelectedTaskField::Description {
                    self.select_next_task_field();
                } else {
                    self.select_next_panel();
                }
            },
            _ => self.select_next_panel(),
        }
    }

    /// Moves the focus one step backward: to the previous field inside the
    /// detail panel, and before its first field, as from every other state,
    /// to the previous panel.
    pub fn retreat_focus(&mut self)
        ensures
            final(self)@ == old(self)@.retreated(),
    {
        match self.selected_panel {
            SelectedPanel::Task(Some((_, _, field))) => {
                if field != SelectedTaskField::Status {
                    self.select_previous_task_field();
                } else {
                    self.select_previous_panel();
                }
            },
            _ => self.select_previous_panel(),
        }
    }
}

} // verus!
