//! What the interface shows: the content of the three panels as plain
//! values, ready to be drawn, and the arithmetic of margins.

use crate::app::focus::{SelectedPanel, SelectedTaskField};
use crate::app::model::AppView;
use crate::app::task::{Task, TaskStatus, TaskView, Timestamp};
use crate::app::App;
use vstd::prelude::*;

verus! {

/// The content of one frame.
#[derive(Debug, PartialEq, Eq)]
pub struct Screen {
    /// The lines of the list panel: the titles in store order.
    pub titles: Vec<String>,
    /// The line of the list panel that is marked, always one that exists.
    pub selected_index: Option<usize>,
    /// The text of the title panel.
    pub title: String,
    /// The status of the shown task in words.
    pub status: String,
    /// The due time of the shown task.
    pub complete_by: Option<Timestamp>,
    /// The description of the shown task.
    pub description: String,
    /// The field of the detail panel that is marked.
    pub selected_task_field: Option<SelectedTaskField>,
}

/// The mathematical value of a frame's content.
pub struct ScreenView {
    pub titles: Seq<Seq<char>>,
    pub selected_index: Option<usize>,
    pub title: Seq<char>,
    pub status: Seq<char>,
    pub complete_by: Option<Timestamp>,
    pub description: Seq<char>,
    pub selected_task_field: Option<SelectedTaskField>,
}

impl View for Screen {
    type V = ScreenView;

    open spec fn view(&self) -> ScreenView {
        ScreenView {
            titles: Seq::new(self.titles@.len(), |index: int| self.titles@[index]@),
            selected_index: self.selected_index,
            title: self.title@,
            status: self.status@,
            complete_by: self.complete_by,
            description: self.description@,
            selected_task_field: self.selected_task_field,
        }
    }
}

/// The status in words.
pub open spec fn status_text(status: TaskStatus) -> Seq<char> {
    match status {
        TaskStatus::New => "New"@,
        TaskStatus::InProgress => "In progress"@,
        TaskStatus::Completed => "Completed"@,
    }
}

/// The task on show. While the list panel is active it is the task at the
/// selected position. The title and detail panels show the task of the
/// identity they are bound to, wherever it stands now, and nothing once it
/// has left the store.
pub open spec fn shown_task(app: AppView) -> Option<TaskView> {
    match app.selected_panel {
        SelectedPanel::List(Some(index)) => app.at(index),
        SelectedPanel::Title(Some((_, id))) => app.find(id),
        SelectedPanel::Task(Some((_, id, _))) => app.find(id),
        _ => None,
    }
}

/// The marked line of the list: the position that the focus carries, while
/// the store has it.
pub open spec fn marked_line(app: AppView) -> Option<usize> {
    match app.selected_panel.index() {
        Some(index) => if index < app.tasks.len() {
            Some(index)
        } else {
            None
        },
        None => None,
    }
}

/// The content of the frame for an application: all titles and the marked
/// line, the marked field, and the title, status, due time and description
/// of the task on show, each empty where no task is shown or the task has
/// none.
pub open spec fn screen_of(app: AppView) -> ScreenView {
    let task = shown_task(app);
    ScreenView {
        titles: app.titles(),
        selected_index: marked_line(app),
        title: match task {
            Some(task) => task.title,
            None => Seq::empty(),
        },
        status: match task {
            Some(task) => status_text(task.status),
            None => Seq::empty(),
        },
        complete_by: match task {
            Some(task) => task.complete_by,
            None => None,
        },
        description: match task {
            Some(TaskView { description: Some(text), .. }) => text,
            _ => Seq::empty(),
        },
        selected_task_field: app.selected_panel.field(),
    }
}

/// The status in words.
pub fn status_label(status: TaskStatus) -> (label: &'static str)
    ensures
        label@ == status_text(status),
{
    match status {
        TaskStatus::New => "New",
        TaskStatus::InProgress => "In progress",
        TaskStatus::Completed => "Completed",
    }
}

/// The task on show.
fn task_on_show(app: &App) -> (task: Option<&Task>)
    ensures
        match task {
            Some(task) => shown_task(app@) == Some(task@),
            None => shown_task(app@) is None,
        },
{
    match *app.get_selected_panel() {
        SelectedPanel::List(Some(index)) => app.get_task_by_index(index),
        SelectedPanel::Title(Some((_, id))) => app.get_task_by_uuid(id),
        SelectedPanel::Task(Some((_, id, _))) => app.get_task_by_uuid(id),
        _ => None,
    }
}

/// The marked line of the list.
fn line_to_mark(app: &App) -> (line: Option<usize>)
    ensures
        line == marked_line(app@),
{
    let carried = match *app.get_selected_panel() {
        SelectedPanel::List(selection) => selection,
        SelectedPanel::Title(Some((index, _))) => Some(index),
        SelectedPanel::Task(Some((index, _, _))) => Some(index),
        _ => None,
    };
    match carried {
        Some(index) => if index < app.get_tasks_size() {
            Some(index)
        } else {
            None
        },
        None => None,
    }
}

/// Works out what the three panels show for the application as it is.
pub fn ui(app: &App) -> (screen: Screen)
    ensures
        screen@ == screen_of(app@),
{
    let titles = app.get_tasks_titles();
    let selected_task_field = match *app.get_selected_panel() {
        SelectedPanel::Task(Some((_, _, field))) => Some(field),
        _ => None,
    };
    let screen = match task_on_show(app) {
        Some(task) => Screen {
            titles,
            selected_index: line_to_mark(app),
            title: task.title.clone(),
            status: String::from_str(status_label(task.status)),
            complete_by: task.complete_by,
            description: match &task.description {
                Some(text) => text.clone(),
                None => String::new(),
            },
            selected_task_field,
        },
        None => Screen {
            titles,
            selected_index: line_to_mark(app),
            title: String::new(),
            status: String::new(),
            complete_by: None,
            description: String::new(),
            selected_task_field,
        },
    };
    assert(screen@.titles =~= app@.titles());
    screen
}

/// A rectangle of the terminal: its top left corner and its size, in cells.
#[derive(Clone, Copy, Debug, PartialEq, Eq, Structural)]
pub struct Area {
    pub x: u16,
    pub y: u16,
    pub width: u16,
    pub height: u16,
}

/// The smaller of two numbers.
pub open spec fn least(a: int, b: int) -> int {
    if a <= b {
        a
    } else {
        b
    }
}

/// The rectangle at `(x, y)` of the given size, cut off where it would reach
/// past the last column or row that sixteen bits can count.
pub open spec fn clamped(x: u16, y: u16, width: u16, height: u16) -> Area {
    Area {
        x,
        y,
        width: least(width as int, u16::MAX - x) as u16,
        height: least(height as int, u16::MAX - y) as u16,
    }
}

/// A coordinate moved on by a margin, no further than sixteen bits can
/// count.
pub open spec fn moved_in(origin: u16, margin: u16) -> u16 {
    least(origin + margin, u16::MAX as int) as u16
}

/// A length shortened by its two margins, no further than to nothing.
pub open spec fn shortened(length: u16, margins: int) -> u16 {
    if length >= margins {
        (length - margins) as u16
    } else {
        0
    }
}

/// The rectangle inside `area` that leaves the margins free, given as left,
/// top, right, bottom: the corner moves in by the left and top margins, and
/// the width and the height lose both margins of their direction.
pub open spec fn within_margins(area: Area, margins: Seq<u16>) -> Area {
    clamped(
        moved_in(area.x, margins[0]),
        moved_in(area.y, margins[1]),
        shortened(area.width, margins[0] + margins[2]),
        shortened(area.height, margins[1] + margins[3]),
    )
}

/// `ratatui::layout::Rect::new`, with the rectangle's four public fields
/// moved into an `Area`. It keeps the corner, and cuts the width and the
/// height so that neither the right nor the bottom edge lies past
/// `u16::MAX`.
#[verifier::external_body]
fn new_area(x: u16, y: u16, width: u16, height: u16) -> (area: Area)
    ensures
        area == clamped(x, y, width, height),
{
    let rect = ratatui::layout::Rect::new(x, y, width, height);
    Area { x: rect.x, y: rect.y, width: rect.width, height: rect.height }
}

/// Leaves the margins free inside `rect`. The two margins of one direction
/// must add up within sixteen bits.
pub fn add_margins(rect: &Area, margins: [u16; 4]) -> (inner: Area)
    requires
        margins[0] + margins[2] <= u16::MAX,
        margins[1] + margins[3] <= u16::MAX,
    ensures
        inner == within_margins(*rect, margins@),
{
    new_area(
        rect.x.saturating_add(margins[0]),
        rect.y.saturating_add(margins[1]),
        rect.width.saturating_sub(margins[0] + margins[2]),
        rect.height.saturating_sub(margins[1] + margins[3]),
    )
}

} // verus!
