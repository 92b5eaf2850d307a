//! From key presses to intents, and from intents to changes of the
//! application.

use crate::app::model::AppView;
use crate::app::task::TaskId;
use crate::app::App;
use vstd::prelude::*;

verus! {

/// The two ways to move through the list or through the fields.
#[derive(Clone, Copy, Debug, PartialEq, Eq, Structural)]
pub enum Direction {
    Previous,
    Next,
}

/// What the user may ask of the application.
#[derive(Debug, PartialEq, Eq)]
pub enum Intent {
    AddTask(String),
    RemoveTask(TaskId),
    AdvanceFocus,
    RetreatFocus,
    MoveListIndex(Direction),
    MoveDetailField(Direction),
}

/// The keys that mean something to the application; every other key is
/// `Other`.
#[derive(Clone, Copy, Debug, PartialEq, Eq)]
pub enum KeyCode {
    Tab,
    BackTab,
    Up,
    Down,
    Char(char),
    Other,
}

/// One event of the keyboard: the key, whether Control was held, and whether
/// the key went down (and not up, or on repeating).
#[derive(Clone, Copy, Debug, PartialEq, Eq)]
pub struct KeyEvent {
    pub code: KeyCode,
    pub control: bool,
    pub press: bool,
}

/// What a key event asks for.
#[derive(Debug, PartialEq, Eq)]
pub enum KeyAction {
    /// Leave the application.
    Exit,
    /// Carry out the intent.
    Act(Intent),
    /// Nothing.
    Ignore,
}

/// The meaning of a key event. Only presses count. With Control held, `c`
/// leaves and no other key does anything. Without it, Tab and BackTab step
/// the focus forward and backward, and the arrows move the list selection.
pub open spec fn key_meaning(event: KeyEvent) -> KeyAction {
    if !event.press {
        KeyAction::Ignore
    } else if event.control {
        if event.code == KeyCode::Char('c') {
            KeyAction::Exit
        } else {
            KeyAction::Ignore
        }
    } else {
        match event.code {
            KeyCode::Tab => KeyAction::Act(Intent::AdvanceFocus),
            KeyCode::BackTab => KeyAction::Act(Intent::RetreatFocus),
            KeyCode::Up => KeyAction::Act(Intent::MoveListIndex(Direction::Previous)),
            KeyCode::Down => KeyAction::Act(Intent::MoveListIndex(Direction::Next)),
            _ => KeyAction::Ignore,
        }
    }
}

/// The application after an intent that only moves the focus or removes a
/// task. Adding a task is not a function of the application alone: see
/// `App::add_task`.
pub open spec fn after_intent(app: AppView, intent: Intent) -> AppView {
    match intent {
        Intent::AddTask(_) => app,
        Intent::RemoveTask(id) => app.without(id),
        Intent::AdvanceFocus => app.advanced(),
        Intent::RetreatFocus => app.retreated(),
        Intent::MoveListIndex(Direction::Next) => app.incremented(),
        Intent::MoveListIndex(Direction::Previous) => app.decremented(),
        Intent::MoveDetailField(Direction::Next) => app.next_field(),
        Intent::MoveDetailField(Direction::Previous) => app.previous_field(),
    }
}

/// The application after a key event: after the intent that the key stands
/// for, and unchanged where it stands for none.
pub open spec fn after_key(app: AppView, event: KeyEvent) -> AppView {
    match key_meaning(event) {
        KeyAction::Act(intent) => after_intent(app, intent),
        _ => app,
    }
}

/// Reads a key event.
pub fn key_action(event: &KeyEvent) -> (action: KeyAction)
    ensures
        action == key_meaning(*event),
{
    if !event.press {
        KeyAction::Ignore
    } else if event.control {
        match event.code {
            KeyCode::Char(c) => if c == 'c' {
                KeyAction::Exit
            } else {
                KeyAction::Ignore
            },
            _ => KeyAction::Ignore,
        }
    } else {
        match event.code {
            KeyCode::Tab => KeyAction::Act(Intent::AdvanceFocus),
            KeyCode::BackTab => KeyAction::Act(Intent::RetreatFocus),
            KeyCode::Up => KeyAction::Act(Intent::MoveListIndex(Direction::Previous)),
            KeyCode::Down => KeyAction::Act(Intent::MoveListIndex(Direction::Next)),
            _ => KeyAction::Ignore,
        }
    }
}

impl App {
    /// Carries out an intent. No intent can fail: one that does not fit the
    /// current focus changes nothing.
    pub fn apply(&mut self, intent: Intent)
        ensures
            match intent {
                Intent::AddTask(title) => old(self)@.gains(
                    final(self)@,
                    final(self)@.tasks.last().uuid,
                    title@,
                ),
                _ => final(self)@ == after_intent(old(self)@, intent),
            },
    {
        match intent {
            Intent::AddTask(title) => {
                self.add_task(title);
            },
            Intent::RemoveTask(id) => self.remove_task(id),
            Intent::AdvanceFocus => self.advance_focus(),
            Intent::RetreatFocus => self.retreat_focus(),
            Intent::MoveListIndex(Direction::Next) => self.increment_list_selected_index(),
            Intent::MoveListIndex(Direction::Previous) => self.decrement_list_selected_index(),
            Intent::MoveDetailField(Direction::Next) => self.select_next_task_field(),
            Intent::MoveDetailField(Direction::Previous) => self.select_previous_task_field(),
        }
    }

    /// Reacts to one key event and tells whether the application is to
    /// leave. A key changes the focus only; the store stays as it is.
    pub fn handle_key(&mut self, event: &KeyEvent) -> (exit: bool)
        ensures
            exit == (key_meaning(*event) is Exit),
            final(self)@ == after_key(old(self)@, *event),
            final(self)@.tasks == old(self)@.tasks,
    {
        match key_action(event) {
            KeyAction::Exit => true,
            KeyAction::Act(intent) => {
                self.apply(intent);
                false
            },
            KeyAction::Ignore => false,
        }
    }
}

} // verus!
