//! What becomes of an attempt to read the persisted task list: the tasks, or
//! the reason why there are none.

use super::task::Task;
use super::App;
use vstd::prelude::*;

verus! {

/// What reading the task file led to.
pub enum FileOutcome {
    /// There is no file at the path.
    Missing,
    /// The file could not be opened or read; the system's words.
    Unreadable(String),
    /// The file does not hold a task list; the parser's words.
    Malformed(String),
    /// The tasks that the file holds, in its order.
    Loaded(Vec<Task>),
}

/// Why no tasks were loaded.
#[derive(Debug, PartialEq, Eq)]
pub enum LoadError {
    /// There is no file at `path`.
    Missing { path: String },
    /// The file could not be opened or read.
    Unreadable { reason: String },
    /// The file at `path` does not hold a task list.
    Malformed { path: String, reason: String },
}

/// The path as messages show it: itself, or `N/A` where it has no text form.
pub open spec fn shown_path(filepath: Option<&str>) -> Seq<char> {
    match filepath {
        Some(path) => path@,
        None => "N/A"@,
    }
}

/// The outcome of a load: the tasks that were read, or the error that names
/// the path and the reason.
pub open spec fn load_result(filepath: Option<&str>, outcome: FileOutcome, result: Result<
    Vec<Task>,
    LoadError,
>) -> bool {
    match outcome {
        FileOutcome::Loaded(tasks) => result == Ok::<Vec<Task>, LoadError>(tasks),
        FileOutcome::Missing => {
            &&& result matches Err(LoadError::Missing { path })
            &&& path@ == shown_path(filepath)
        },
        FileOutcome::Unreadable(why) => {
            &&& result matches Err(LoadError::Unreadable { reason })
            &&& reason@ == why@
        },
        FileOutcome::Malformed(why) => {
            &&& result matches Err(LoadError::Malformed { path, reason })
            &&& path@ == shown_path(filepath)
            &&& reason@ == why@
        },
    }
}

/// The path as messages show it.
fn path_text(filepath: Option<&str>) -> (text: String)
    ensures
        text@ == shown_path(filepath),
{
    match filepath {
        Some(path) => String::from_str(path),
        None => String::from_str("N/A"),
    }
}

impl App {
    /// The result of loading the task list at `filepath`, given what reading
    /// the file led to. A failure names the path, or `N/A` for a path
    /// without a text form, and the reason.
    pub fn load_tasks_from_file(filepath: Option<&str>, outcome: FileOutcome) -> (result: Result<
        Vec<Task>,
        LoadError,
    >)
        ensures
            load_result(filepath, outcome, result),
    {
        match outcome {
            FileOutcome::Loaded(tasks) => Ok(tasks),
            FileOutcome::Missing => Err(LoadError::Missing { path: path_text(filepath) }),
            FileOutcome::Unreadable(reason) => Err(LoadError::Unreadable { reason }),
            FileOutcome::Malformed(reason) => Err(
                LoadError::Malformed { path: path_text(filepath), reason },
            ),
        }
    }
}

impl LoadError {
    /// The text of the message.
    pub open spec fn text(self) -> Seq<char> {
        match self {
            LoadError::Missing { path } => "File "@ + path@ + " does not exist"@,
            LoadError::Unreadable { reason } => reason@,
            LoadError::Malformed { path, reason } => "Unable to parse tasks list from file "@
                + path@ + " [["@ + reason@ + "]]"@,
        }
    }

    /// The message for the user.
    pub fn message(&self) -> (message: String)
        ensures
            message@ == self.text(),
    {
        match self {
            LoadError::Missing { path } => {
                let mut message = String::from_str("File ");
                message.append(path.as_str());
                message.append(" does not exist");
                message
            },
            LoadError::Unreadable { reason } => reason.clone(),
            LoadError::Malformed { path, reason } => {
                let mut message = String::from_str("Unable to parse tasks list from file ");
                message.append(path.as_str());
                message.append(" [[");
                message.append(reason.as_str());
                message.append("]]");
                message
            },
        }
    }
}

} // verus!
