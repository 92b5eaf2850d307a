//! The focus state: which panel is active, which task it is bound to, and,
//! inside the detail panel, which field is selected.
//!
//! Every transition is a total function of the current focus and of the
//! identities in the store, in store order. A focus that carries an index
//! and an identity keeps the pair it read when the panel was entered; the
//! store may change afterwards without the focus being told.

use super::task::TaskId;
use vstd::arithmetic::div_mod::{
    lemma_add_mod_noop_right, lemma_mod_add_multiples_vanish, lemma_mod_bound,
    lemma_mod_sub_multiples_vanish, lemma_small_mod,
};
use vstd::prelude::*;

verus! {

/// The fields of the detail panel, in the order in which they are visited.
#[derive(Clone, Copy, Debug, PartialEq, Eq, Structural)]
pub enum SelectedTaskField {
    Status,
    CompleteBy,
    Description,
}

impl SelectedTaskField {
    /// The field after this one; the last is followed by the first.
    pub open spec fn following(self) -> SelectedTaskField {
        match self {
            SelectedTaskField::Status => SelectedTaskField::CompleteBy,
            SelectedTaskField::CompleteBy => SelectedTaskField::Description,
            SelectedTaskField::Description => SelectedTaskField::Status,
        }
    }

    /// The field before this one; the first is preceded by the last.
    pub open spec fn preceding(self) -> SelectedTaskField {
        match self {
            SelectedTaskField::Status => SelectedTaskField::Description,
            SelectedTaskField::CompleteBy => SelectedTaskField::Status,
            SelectedTaskField::Description => SelectedTaskField::CompleteBy,
        }
    }

    pub fn next(self) -> (field: SelectedTaskField)
        ensures
            field == self.following(),
    {
        match self {
            SelectedTaskField::Status => SelectedTaskField::CompleteBy,
            SelectedTaskField::CompleteBy => SelectedTaskField::Description,
            SelectedTaskField::Description => SelectedTaskField::Status,
        }
    }

    pub fn previous(self) -> (field: SelectedTaskField)
        ensures
            field == self.preceding(),
    {
        match self {
            SelectedTaskField::Status => SelectedTaskField::Description,
            SelectedTaskField::CompleteBy => SelectedTaskField::Status,
            SelectedTaskField::Description => SelectedTaskField::CompleteBy,
        }
    }
}

/// The focus state. An absent payload means that the panel is active
/// but shows no task.
#[derive(Clone, Copy, Debug, PartialEq, Eq)]
pub enum SelectedPanel {
    /// No panel is active.
    Unfocused,
    /// The list panel, with the selected position.
    List(Option<usize>),
    /// The title panel, bound to the task that stood at the position when
    /// the panel was entered.
    Title(Option<(usize, TaskId)>),
    /// The detail panel, bound like the title panel, with the selected field.
    Task(Option<(usize, TaskId, SelectedTaskField)>),
}

/// The selection that the list panel starts with: the first position, or
/// none in an empty store.
pub open spec fn first_selection(len: nat) -> Option<usize> {
    if len > 0 {
        Some(0usize)
    } else {
        None
    }
}

/// The position together with the identity that stands there. A selection
/// that is absent, or that lies beyond the end of the store, binds nothing.
pub open spec fn bind(selection: Option<usize>, ids: Seq<TaskId>) -> Option<(usize, TaskId)> {
    match selection {
        Some(index) => if index < ids.len() {
            Some((index, ids[index as int]))
        } else {
            None
        },
        None => None,
    }
}

/// The list selection to go back to from a panel bound to `index`: the same
/// position while the store still has it, else none.
pub open spec fn release(index: usize, len: nat) -> Option<usize> {
    if index < len {
        Some(index)
    } else {
        None
    }
}

impl SelectedPanel {
    /// The position that the focus carries, if any.
    pub open spec fn index(self) -> Option<usize> {
        match self {
            SelectedPanel::Unfocused => None,
            SelectedPanel::List(selection) => selection,
            SelectedPanel::Title(Some((index, _))) => Some(index),
            SelectedPanel::Title(None) => None,
            SelectedPanel::Task(Some((index, _, _))) => Some(index),
            SelectedPanel::Task(None) => None,
        }
    }

    /// The identity that the title or detail panel is bound to, if any.
    pub open spec fn bound_id(self) -> Option<TaskId> {
        match self {
            SelectedPanel::Title(Some((_, id))) => Some(id),
            SelectedPanel::Task(Some((_, id, _))) => Some(id),
            _ => None,
        }
    }

    /// The selected field of the detail panel, if it shows a task.
    pub open spec fn field(self) -> Option<SelectedTaskField> {
        match self {
            SelectedPanel::Task(Some((_, _, field))) => Some(field),
            _ => None,
        }
    }

    /// Whether what the focus carries agrees with the store as it is now:
    /// a carried position exists, and a bound identity stands at it.
    pub open spec fn in_step(self, ids: Seq<TaskId>) -> bool {
        match self {
            SelectedPanel::Unfocused => true,
            SelectedPanel::List(Some(index)) => index < ids.len(),
            SelectedPanel::List(None) => true,
            SelectedPanel::Title(Some((index, id))) => index < ids.len() && ids[index as int] == id,
            SelectedPanel::Title(None) => true,
            SelectedPanel::Task(Some((index, id, _))) => index < ids.len() && ids[index as int]
                == id,
            SelectedPanel::Task(None) => true,
        }
    }

    /// The panel after this one: list, title, detail, and back to the list.
    /// With no panel active the list comes first. The title panel binds the
    /// listed position to the identity found there, the detail panel opens on
    /// its first field, and the list gets back the position that was bound.
    pub open spec fn next_panel(self, ids: Seq<TaskId>) -> SelectedPanel {
        match self {
            SelectedPanel::Unfocused => SelectedPanel::List(first_selection(ids.len())),
            SelectedPanel::List(selection) => SelectedPanel::Title(bind(selection, ids)),
            SelectedPanel::Title(Some((index, id))) => SelectedPanel::Task(
                Some((index, id, SelectedTaskField::Status)),
            ),
            SelectedPanel::Title(None) => SelectedPanel::Task(None),
            SelectedPanel::Task(Some((index, _, _))) => SelectedPanel::List(
                release(index, ids.len()),
            ),
            SelectedPanel::Task(None) => SelectedPanel::List(None),
        }
    }

    /// The panel before this one: list, detail, title, and back to the list.
    /// With no panel active the list comes first. The detail panel is entered
    /// from the list on its last field.
    pub open spec fn previous_panel(self, ids: Seq<TaskId>) -> SelectedPanel {
        match self {
            SelectedPanel::Unfocused => SelectedPanel::List(first_selection(ids.len())),
            SelectedPanel::List(selection) => match bind(selection, ids) {
                Some((index, id)) => SelectedPanel::Task(
                    Some((index, id, SelectedTaskField::Description)),
                ),
                None => SelectedPanel::Task(None),
            },
            SelectedPanel::Task(Some((index, id, _))) => SelectedPanel::Title(Some((index, id))),
            SelectedPanel::Task(None) => SelectedPanel::Title(None),
            SelectedPanel::Title(Some((index, _))) => SelectedPanel::List(
                release(index, ids.len()),
            ),
            SelectedPanel::Title(None) => SelectedPanel::List(None),
        }
    }

    /// The focus after a move to the next field: inside a detail panel that
    /// shows a task the field changes, anywhere else nothing does.
    pub open spec fn next_field(self) -> SelectedPanel {
        match self {
            SelectedPanel::Task(Some((index, id, field))) => SelectedPanel::Task(
                Some((index, id, field.following())),
            ),
            _ => self,
        }
    }

    /// The focus after a move to the previous field.
    pub open spec fn previous_field(self) -> SelectedPanel {
        match self {
            SelectedPanel::Task(Some((index, id, field))) => SelectedPanel::Task(
                Some((index, id, field.preceding())),
            ),
            _ => self,
        }
    }

    /// The focus after one step forward: through the fields of a detail panel
    /// up to the last, and from there, as from every other state, to the next
    /// panel.
    pub open spec fn advanced(self, ids: Seq<TaskId>) -> SelectedPanel {
        match self {
            SelectedPanel::Task(Some((_, _, field))) => if field
                != SelectedTaskField::Description {
                self.next_field()
            } else {
                self.next_panel(ids)
            },
            _ => self.next_panel(ids),
        }
    }

    /// The focus after one step backward: through the fields of a detail
    /// panel down to the first, and from there, as from every other state, to
    /// the previous panel.
    pub open spec fn retreated(self, ids: Seq<TaskId>) -> SelectedPanel {
        match self {
            SelectedPanel::Task(Some((_, _, field))) => if field != SelectedTaskField::Status {
                self.previous_field()
            } else {
                self.previous_panel(ids)
            },
            _ => self.previous_panel(ids),
        }
    }

    /// The focus after the list selection moved down by one, from the last
    /// position to the first. Nothing changes without a list selection or in
    /// an empty store.
    pub open spec fn incremented(self, len: nat) -> SelectedPanel {
        match self {
            SelectedPanel::List(Some(index)) => if len > 0 {
                SelectedPanel::List(Some(((index + 1) % (len as int)) as usize))
            } else {
                self
            },
            _ => self,
        }
    }

    /// The focus after the list selection moved up by one, from the first
    /// position to the last. Nothing changes without a list selection or in
    /// an empty store.
    pub open spec fn decremented(self, len: nat) -> SelectedPanel {
        match self {
            SelectedPanel::List(Some(index)) => if len > 0 {
                SelectedPanel::List(Some(((index + len - 1) % (len as int)) as usize))
            } else {
                self
            },
            _ => self,
        }
    }

    /// `self` after `steps` moves down the list.
    pub open spec fn incremented_by(self, len: nat, steps: nat) -> SelectedPanel
        decreases steps,
    {
        if steps == 0 {
            self
        } else {
            self.incremented_by(len, (steps - 1) as nat).incremented(len)
        }
    }

    /// `self` after `steps` moves up the list.
    pub open spec fn decremented_by(self, len: nat, steps: nat) -> SelectedPanel
        decreases steps,
    {
        if steps == 0 {
            self
        } else {
            self.decremented_by(len, (steps - 1) as nat).decremented(len)
        }
    }
}

/// Four panel steps from no focus, over a store that is not empty, end where
/// the first of them led: on the list, at its first position. From a list
/// selection that the store has, three panel steps lead back to it.
pub proof fn panel_cycle_closes(ids: Seq<TaskId>, index: usize)
    requires
        ids.len() > 0,
        index < ids.len(),
    ensures
        SelectedPanel::Unfocused.next_panel(ids) == SelectedPanel::List(Some(0usize)),
        SelectedPanel::Unfocused.next_panel(ids).next_panel(ids).next_panel(ids).next_panel(ids)
            == SelectedPanel::List(Some(0usize)),
        SelectedPanel::List(Some(index)).next_panel(ids).next_panel(ids).next_panel(ids)
            == SelectedPanel::List(Some(index)),
        SelectedPanel::List(Some(index)).previous_panel(ids).previous_panel(ids).previous_panel(
            ids,
        ) == SelectedPanel::List(Some(index)),
{
}

/// Stepping forward visits the title, then the three fields of the detail
/// panel in order, and with the fifth step is back on the list selection it
/// left. Stepping backward visits the same states in the opposite order.
pub proof fn focus_cycle_closes(ids: Seq<TaskId>, index: usize)
    requires
        index < ids.len(),
    ensures
        ({
            let list = SelectedPanel::List(Some(index));
            let id = ids[index as int];
            let title = SelectedPanel::Title(Some((index, id)));
            let status = SelectedPanel::Task(Some((index, id, SelectedTaskField::Status)));
            let complete_by = SelectedPanel::Task(
                Some((index, id, SelectedTaskField::CompleteBy)),
            );
            let description = SelectedPanel::Task(
                Some((index, id, SelectedTaskField::Description)),
            );
            &&& list.advanced(ids) == title
            &&& title.advanced(ids) == status
            &&& status.advanced(ids) == complete_by
            &&& complete_by.advanced(ids) == description
            &&& description.advanced(ids) == list
            &&& list.retreated(ids) == description
            &&& description.retreated(ids) == complete_by
            &&& complete_by.retreated(ids) == status
            &&& status.retreated(ids) == title
            &&& title.retreated(ids) == list
        }),
{
}

/// A step forward followed by a step backward, over the same store, leads
/// back to the state it started from. Three kinds of state are left out,
/// because no step leads back to them: no focus at all; a list selection
/// beyond the end of the store; and the last field of a detail panel whose
/// binding the store no longer confirms.
pub proof fn advance_then_retreat_restores(panel: SelectedPanel, ids: Seq<TaskId>)
    requires
        !(panel is Unfocused),
        panel matches SelectedPanel::List(Some(index)) ==> index < ids.len(),
        panel matches SelectedPanel::Task(Some((index, id, SelectedTaskField::Description)))
            ==> index < ids.len() && ids[index as int] == id,
    ensures
        panel.advanced(ids).retreated(ids) == panel,
{
}

/// A step backward followed by a step forward, over the same store, leads
/// back to the state it started from. Left out are the states that no step
/// leads back to: no focus at all; a list selection beyond the end of the
/// store; and a title panel whose binding the store no longer confirms.
pub proof fn retreat_then_advance_restores(panel: SelectedPanel, ids: Seq<TaskId>)
    requires
        !(panel is Unfocused),
        panel matches SelectedPanel::List(Some(index)) ==> index < ids.len(),
        panel matches SelectedPanel::Title(Some((index, id))) ==> index < ids.len()
            && ids[index as int] == id,
    ensures
        panel.retreated(ids).advanced(ids) == panel,
{
}

/// While the store stays as it is, no move of the focus breaks the agreement
/// between focus and store: from a focus that is in step, every transition
/// leads to one that is in step. A move of the list selection even restores
/// it, in a store that is not empty.
pub proof fn transitions_keep_step(panel: SelectedPanel, ids: Seq<TaskId>)
    requires
        ids.len() <= usize::MAX,
    ensures
        SelectedPanel::Unfocused.in_step(ids),
        panel.in_step(ids) ==> {
            &&& panel.next_panel(ids).in_step(ids)
            &&& panel.previous_panel(ids).in_step(ids)
            &&& panel.next_field().in_step(ids)
            &&& panel.previous_field().in_step(ids)
            &&& panel.advanced(ids).in_step(ids)
            &&& panel.retreated(ids).in_step(ids)
        },
        panel.in_step(ids) || (panel is List && ids.len() > 0) ==> {
            &&& panel.incremented(ids.len()).in_step(ids)
            &&& panel.decremented(ids.len()).in_step(ids)
        },
{
    if let SelectedPanel::List(Some(index)) = panel {
        if ids.len() > 0 {
            lemma_mod_bound(index + 1, ids.len() as int);
            lemma_mod_bound(index + ids.len() - 1, ids.len() as int);
        }
    }
}

/// Inside the store a move down the list adds one and a move up takes one
/// away, except that the last position is followed by the first and the
/// first preceded by the last.
pub proof fn list_moves_wrap(index: usize, len: nat)
    requires
        index < len <= usize::MAX,
    ensures
        SelectedPanel::List(Some(index)).incremented(len) == SelectedPanel::List(
            Some(
                if index + 1 == len {
                    0usize
                } else {
                    (index + 1) as usize
                },
            ),
        ),
        SelectedPanel::List(Some(index)).decremented(len) == SelectedPanel::List(
            Some(
                if index == 0 {
                    (len - 1) as usize
                } else {
                    (index - 1) as usize
                },
            ),
        ),
{
    let n = len as int;
    if index + 1 == len {
        lemma_mod_add_multiples_vanish(0, n);
        lemma_small_mod(0, len);
    } else {
        lemma_small_mod((index + 1) as nat, len);
    }
    if index == 0 {
        lemma_small_mod((len - 1) as nat, len);
    } else {
        lemma_mod_add_multiples_vanish(index - 1, n);
        lemma_small_mod((index - 1) as nat, len);
    }
}

/// After `steps` moves down the list the selection stands `steps` positions
/// further on, counted round the store; after `steps` moves up, as many
/// positions back.
pub proof fn list_moves_add_up(index: usize, len: nat, steps: nat)
    requires
        index < len <= usize::MAX,
    ensures
        SelectedPanel::List(Some(index)).incremented_by(len, steps) == SelectedPanel::List(
            Some(((index + steps) % (len as int)) as usize),
        ),
        SelectedPanel::List(Some(index)).decremented_by(len, steps) == SelectedPanel::List(
            Some(((index - steps) % (len as int)) as usize),
        ),
    decreases steps,
{
    let n = len as int;
    if steps == 0 {
        lemma_small_mod(index as nat, len);
    } else {
        list_moves_add_up(index, len, (steps - 1) as nat);
        lemma_add_mod_noop_right(1, index + steps - 1, n);
        lemma_add_mod_noop_right(n - 1, index - steps + 1, n);
        lemma_mod_add_multiples_vanish(index - steps, n);
    }
}

/// In a store of `len` tasks, `len` moves down the list lead back to the
/// position they started from, and so do `len` moves up.
pub proof fn list_moves_come_round(index: usize, len: nat)
    requires
        index < len <= usize::MAX,
    ensures
        SelectedPanel::List(Some(index)).incremented_by(len, len) == SelectedPanel::List(
            Some(index),
        ),
        SelectedPanel::List(Some(index)).decremented_by(len, len) == SelectedPanel::List(
            Some(index),
        ),
{
    let n = len as int;
    list_moves_add_up(index, len, len);
    lemma_mod_add_multiples_vanish(index as int, n);
    lemma_mod_sub_multiples_vanish(index as int, n);
    lemma_small_mod(index as nat, len);
}

} // verus!
