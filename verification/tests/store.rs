use task_tracker::app::focus::SelectedPanel;
use task_tracker::app::load::LoadError;
use task_tracker::app::task::{Task, TaskId, TaskStatus, Timestamp};
use task_tracker::app::App;

fn task(id: u128, title: &str) -> Task {
    Task {
        uuid: TaskId { value: id },
        title: title.to_string(),
        created: Timestamp { secs: 1_700_000_000, nanos: 0 },
        complete_by: None,
        description: None,
        status: TaskStatus::New,
        percentage: None,
    }
}

fn app_with(tasks: Vec<Task>) -> App {
    App::new(Some(Ok(tasks)))
}

#[test]
fn new_app_without_source_is_empty_and_unfocused() {
    let app = App::new(None);
    assert_eq!(app.get_tasks_size(), 0);
    assert!(app.get_tasks().is_empty());
    assert_eq!(*app.get_selected_panel(), SelectedPanel::Unfocused);
}

#[test]
fn new_app_after_failed_load_is_empty() {
    let failed = Err(LoadError::Missing { path: "tasks.json".to_string() });
    let app = App::new(Some(failed));
    assert_eq!(app.get_tasks_size(), 0);
    assert_eq!(*app.get_selected_panel(), SelectedPanel::Unfocused);
}

#[test]
fn new_app_keeps_loaded_tasks_in_order() {
    let app = app_with(vec![task(7, "Buy milk"), task(3, "Write report")]);
    assert_eq!(app.get_tasks_size(), 2);
    assert_eq!(app.get_tasks()[0], task(7, "Buy milk"));
    assert_eq!(app.get_tasks()[1], task(3, "Write report"));
    assert_eq!(*app.get_selected_panel(), SelectedPanel::Unfocused);
}

#[test]
fn with_node_makes_identities_for_that_node() {
    let mut app = App::with_node([1, 2, 3, 4, 5, 6], vec![task(1, "Old")]);
    let id = app.add_task("New".to_string());
    assert_eq!(id.value & 0xffff_ffff_ffff, 0x0102_0304_0506);
    assert_eq!(app.get_tasks_size(), 2);
}

#[test]
fn add_task_appends_a_new_task() {
    let mut app = app_with(vec![task(1, "Buy milk")]);
    let id = app.add_task("Write report".to_string());
    assert_eq!(app.get_tasks_size(), 2);
    let added = &app.get_tasks()[1];
    assert_eq!(added.uuid, id);
    assert_eq!(added.title, "Write report");
    assert_eq!(added.status, TaskStatus::New);
    assert_eq!(added.complete_by, None);
    assert_eq!(added.description, None);
    assert_eq!(added.percentage, None);
    assert_eq!(app.get_tasks()[0], task(1, "Buy milk"));
    assert_eq!(*app.get_selected_panel(), SelectedPanel::Unfocused);
}

#[test]
fn add_task_reads_the_clock() {
    let mut app = App::new(None);
    app.add_task("Now".to_string());
    let created = app.get_tasks()[0].created;
    assert!(created.secs > 1_600_000_000);
    assert!(created.nanos < 1_000_000_000);
}

#[test]
fn add_task_accepts_an_empty_title() {
    let mut app = App::new(None);
    let id = app.add_task(String::new());
    assert_eq!(app.get_task_by_uuid(id).map(|found| found.title.as_str()), Some(""));
}

#[test]
fn append_task_keeps_the_task_as_it_is() {
    let mut app = App::new(None);
    let mut given = task(9, "Imported");
    given.status = TaskStatus::Completed;
    given.percentage = Some(100);
    given.description = Some("done".to_string());
    given.complete_by = Some(Timestamp { secs: 1_800_000_000, nanos: 5 });
    app.append_task(given);
    let mut expected = task(9, "Imported");
    expected.status = TaskStatus::Completed;
    expected.percentage = Some(100);
    expected.description = Some("done".to_string());
    expected.complete_by = Some(Timestamp { secs: 1_800_000_000, nanos: 5 });
    assert_eq!(app.get_tasks().len(), 1);
    assert_eq!(app.get_tasks()[0], expected);
}

#[test]
fn remove_task_deletes_the_task_with_that_identity() {
    let mut app = app_with(vec![task(1, "a"), task(2, "b"), task(3, "c")]);
    app.remove_task(TaskId { value: 2 });
    assert_eq!(app.get_tasks_titles(), vec!["a".to_string(), "c".to_string()]);
    assert!(app.get_task_by_uuid(TaskId { value: 2 }).is_none());
    assert_eq!(app.get_task_by_uuid(TaskId { value: 3 }), Some(&task(3, "c")));
}

#[test]
fn remove_task_of_unknown_identity_changes_nothing() {
    let mut app = app_with(vec![task(1, "a"), task(2, "b")]);
    app.remove_task(TaskId { value: 5 });
    assert_eq!(app.get_tasks_size(), 2);
    assert_eq!(app.get_tasks()[0], task(1, "a"));
    assert_eq!(app.get_tasks()[1], task(2, "b"));
}

#[test]
fn remove_task_from_empty_store_changes_nothing() {
    let mut app = App::new(None);
    app.remove_task(TaskId { value: 1 });
    assert_eq!(app.get_tasks_size(), 0);
}

#[test]
fn remove_task_takes_the_first_of_equal_identities() {
    let mut app = app_with(vec![task(1, "first"), task(2, "other"), task(1, "second")]);
    app.remove_task(TaskId { value: 1 });
    assert_eq!(app.get_tasks_titles(), vec!["other".to_string(), "second".to_string()]);
    assert_eq!(app.get_task_by_uuid(TaskId { value: 1 }), Some(&task(1, "second")));
}

#[test]
fn remove_task_leaves_the_focus_alone() {
    let mut app = app_with(vec![task(1, "a"), task(2, "b")]);
    app.select_next_panel();
    app.increment_list_selected_index();
    assert_eq!(*app.get_selected_panel(), SelectedPanel::List(Some(1)));
    app.remove_task(TaskId { value: 2 });
    assert_eq!(*app.get_selected_panel(), SelectedPanel::List(Some(1)));
}

#[test]
fn get_task_by_uuid_finds_each_task() {
    let app = app_with(vec![task(10, "a"), task(20, "b")]);
    assert_eq!(app.get_task_by_uuid(TaskId { value: 10 }), Some(&task(10, "a")));
    assert_eq!(app.get_task_by_uuid(TaskId { value: 20 }), Some(&task(20, "b")));
    assert_eq!(app.get_task_by_uuid(TaskId { value: 30 }), None);
}

#[test]
fn get_task_by_index_reaches_as_far_as_the_store() {
    let app = app_with(vec![task(10, "a"), task(20, "b")]);
    assert_eq!(app.get_task_by_index(0), Some(&task(10, "a")));
    assert_eq!(app.get_task_by_index(1), Some(&task(20, "b")));
    assert_eq!(app.get_task_by_index(2), None);
    assert_eq!(app.get_task_by_index(usize::MAX), None);
}

#[test]
fn get_task_by_index_in_empty_store_finds_nothing() {
    let app = App::new(None);
    assert_eq!(app.get_task_by_index(0), None);
}

#[test]
fn get_tasks_titles_follow_store_order() {
    let app = app_with(vec![task(3, "Buy milk"), task(1, "Write report"), task(2, "Buy milk")]);
    assert_eq!(
        app.get_tasks_titles(),
        vec!["Buy milk".to_string(), "Write report".to_string(), "Buy milk".to_string()]
    );
    assert_eq!(App::new(None).get_tasks_titles(), Vec::<String>::new());
}

#[test]
fn get_tasks_size_counts_adds_and_removes() {
    let mut app = App::new(None);
    assert_eq!(app.get_tasks_size(), 0);
    let first = app.add_task("a".to_string());
    app.add_task("b".to_string());
    assert_eq!(app.get_tasks_size(), 2);
    app.remove_task(first);
    assert_eq!(app.get_tasks_size(), 1);
}
