use task_tracker::app::focus::{SelectedPanel, SelectedTaskField};
use task_tracker::app::task::{Task, TaskId, TaskStatus, Timestamp};
use task_tracker::app::App;

fn item(id: u128, title: &str) -> Task {
    Task {
        uuid: TaskId { value: id },
        title: title.to_string(),
        created: Timestamp { secs: 1_700_000_000, nanos: 0 },
        complete_by: None,
        description: None,
        status: TaskStatus::New,
        percentage: None,
    }
}

fn three() -> App {
    App::new(Some(Ok(vec![item(11, "a"), item(22, "b"), item(33, "c")])))
}

fn id(value: u128) -> TaskId {
    TaskId { value }
}

#[test]
fn scenario_from_list_to_detail_fields() {
    let mut app = App::new(None);
    let a = app.add_task("Buy milk".to_string());
    let b = app.add_task("Write report".to_string());
    assert_eq!(app.get_task_by_index(0).map(|found| found.uuid), Some(a));
    assert_eq!(*app.get_selected_panel(), SelectedPanel::Unfocused);
    app.advance_focus();
    assert_eq!(*app.get_selected_panel(), SelectedPanel::List(Some(0)));
    app.increment_list_selected_index();
    assert_eq!(*app.get_selected_panel(), SelectedPanel::List(Some(1)));
    app.advance_focus();
    assert_eq!(*app.get_selected_panel(), SelectedPanel::Title(Some((1, b))));
    app.advance_focus();
    assert_eq!(
        *app.get_selected_panel(),
        SelectedPanel::Task(Some((1, b, SelectedTaskField::Status)))
    );
    app.select_next_task_field();
    assert_eq!(
        *app.get_selected_panel(),
        SelectedPanel::Task(Some((1, b, SelectedTaskField::CompleteBy)))
    );
}

#[test]
fn four_panel_steps_from_no_focus_close_the_cycle() {
    let mut app = three();
    app.select_next_panel();
    assert_eq!(*app.get_selected_panel(), SelectedPanel::List(Some(0)));
    app.select_next_panel();
    assert_eq!(*app.get_selected_panel(), SelectedPanel::Title(Some((0, id(11)))));
    app.select_next_panel();
    assert_eq!(
        *app.get_selected_panel(),
        SelectedPanel::Task(Some((0, id(11), SelectedTaskField::Status)))
    );
    app.select_next_panel();
    assert_eq!(*app.get_selected_panel(), SelectedPanel::List(Some(0)));
}

#[test]
fn panel_cycle_keeps_the_selected_index() {
    let mut app = three();
    app.select_next_panel();
    app.increment_list_selected_index();
    app.increment_list_selected_index();
    assert_eq!(*app.get_selected_panel(), SelectedPanel::List(Some(2)));
    app.select_next_panel();
    app.select_next_panel();
    app.select_next_panel();
    assert_eq!(*app.get_selected_panel(), SelectedPanel::List(Some(2)));
}

#[test]
fn advance_walks_through_the_detail_fields() {
    let mut app = three();
    let mut seen = Vec::new();
    for _ in 0..6 {
        app.advance_focus();
        seen.push(*app.get_selected_panel());
    }
    assert_eq!(
        seen,
        vec![
            SelectedPanel::List(Some(0)),
            SelectedPanel::Title(Some((0, id(11)))),
            SelectedPanel::Task(Some((0, id(11), SelectedTaskField::Status))),
            SelectedPanel::Task(Some((0, id(11), SelectedTaskField::CompleteBy))),
            SelectedPanel::Task(Some((0, id(11), SelectedTaskField::Description))),
            SelectedPanel::List(Some(0)),
        ]
    );
}

#[test]
fn retreat_walks_the_same_states_backwards() {
    let mut app = three();
    let mut seen = Vec::new();
    for _ in 0..6 {
        app.retreat_focus();
        seen.push(*app.get_selected_panel());
    }
    assert_eq!(
        seen,
        vec![
            SelectedPanel::List(Some(0)),
            SelectedPanel::Task(Some((0, id(11), SelectedTaskField::Description))),
            SelectedPanel::Task(Some((0, id(11), SelectedTaskField::CompleteBy))),
            SelectedPanel::Task(Some((0, id(11), SelectedTaskField::Status))),
            SelectedPanel::Title(Some((0, id(11)))),
            SelectedPanel::List(Some(0)),
        ]
    );
}

#[test]
fn advance_then_retreat_returns_to_each_state() {
    let mut app = three();
    app.advance_focus();
    app.increment_list_selected_index();
    for _ in 0..5 {
        let before = *app.get_selected_panel();
        app.advance_focus();
        assert_ne!(*app.get_selected_panel(), before);
        app.retreat_focus();
        assert_eq!(*app.get_selected_panel(), before);
        app.advance_focus();
    }
    assert_eq!(*app.get_selected_panel(), SelectedPanel::List(Some(1)));
}

#[test]
fn retreat_then_advance_returns_to_each_state() {
    let mut app = three();
    app.advance_focus();
    for _ in 0..5 {
        let before = *app.get_selected_panel();
        app.retreat_focus();
        app.advance_focus();
        assert_eq!(*app.get_selected_panel(), before);
        app.retreat_focus();
    }
    assert_eq!(*app.get_selected_panel(), SelectedPanel::List(Some(0)));
}

#[test]
fn retreat_from_no_focus_enters_the_list() {
    let mut app = three();
    app.select_previous_panel();
    assert_eq!(*app.get_selected_panel(), SelectedPanel::List(Some(0)));
    let mut empty = App::new(None);
    empty.retreat_focus();
    assert_eq!(*empty.get_selected_panel(), SelectedPanel::List(None));
}

#[test]
fn previous_panel_enters_the_detail_on_its_last_field() {
    let mut app = three();
    app.select_next_panel();
    app.select_previous_panel();
    assert_eq!(
        *app.get_selected_panel(),
        SelectedPanel::Task(Some((0, id(11), SelectedTaskField::Description)))
    );
    app.select_previous_panel();
    assert_eq!(*app.get_selected_panel(), SelectedPanel::Title(Some((0, id(11)))));
    app.select_previous_panel();
    assert_eq!(*app.get_selected_panel(), SelectedPanel::List(Some(0)));
}

#[test]
fn next_panel_leaves_the_detail_from_any_field() {
    let mut app = three();
    app.select_next_panel();
    app.select_next_panel();
    app.select_next_panel();
    app.select_next_task_field();
    assert_eq!(
        *app.get_selected_panel(),
        SelectedPanel::Task(Some((0, id(11), SelectedTaskField::CompleteBy)))
    );
    app.select_next_panel();
    assert_eq!(*app.get_selected_panel(), SelectedPanel::List(Some(0)));
}

#[test]
fn empty_store_binds_no_task() {
    let mut app = App::new(None);
    app.advance_focus();
    assert_eq!(*app.get_selected_panel(), SelectedPanel::List(None));
    app.advance_focus();
    assert_eq!(*app.get_selected_panel(), SelectedPanel::Title(None));
    app.advance_focus();
    assert_eq!(*app.get_selected_panel(), SelectedPanel::Task(None));
    app.select_next_task_field();
    assert_eq!(*app.get_selected_panel(), SelectedPanel::Task(None));
    app.select_previous_task_field();
    assert_eq!(*app.get_selected_panel(), SelectedPanel::Task(None));
    app.advance_focus();
    assert_eq!(*app.get_selected_panel(), SelectedPanel::List(None));
    app.retreat_focus();
    assert_eq!(*app.get_selected_panel(), SelectedPanel::Task(None));
    app.retreat_focus();
    assert_eq!(*app.get_selected_panel(), SelectedPanel::Title(None));
}

#[test]
fn list_moves_do_nothing_in_an_empty_store() {
    let mut app = App::new(None);
    app.advance_focus();
    app.increment_list_selected_index();
    assert_eq!(*app.get_selected_panel(), SelectedPanel::List(None));
    app.decrement_list_selected_index();
    assert_eq!(*app.get_selected_panel(), SelectedPanel::List(None));
    assert_eq!(app.get_list_selected_index(), None);
}

#[test]
fn list_moves_do_nothing_outside_the_list() {
    let mut app = three();
    app.increment_list_selected_index();
    assert_eq!(*app.get_selected_panel(), SelectedPanel::Unfocused);
    app.decrement_list_selected_index();
    assert_eq!(*app.get_selected_panel(), SelectedPanel::Unfocused);
    app.advance_focus();
    app.advance_focus();
    let title = *app.get_selected_panel();
    app.increment_list_selected_index();
    app.decrement_list_selected_index();
    assert_eq!(*app.get_selected_panel(), title);
    app.advance_focus();
    let detail = *app.get_selected_panel();
    app.increment_list_selected_index();
    app.decrement_list_selected_index();
    assert_eq!(*app.get_selected_panel(), detail);
}

#[test]
fn increment_wraps_from_last_to_first() {
    let mut app = three();
    app.advance_focus();
    app.increment_list_selected_index();
    assert_eq!(app.get_list_selected_index(), Some(1));
    app.increment_list_selected_index();
    assert_eq!(app.get_list_selected_index(), Some(2));
    app.increment_list_selected_index();
    assert_eq!(app.get_list_selected_index(), Some(0));
}

#[test]
fn decrement_wraps_from_first_to_last() {
    let mut app = three();
    app.advance_focus();
    app.decrement_list_selected_index();
    assert_eq!(app.get_list_selected_index(), Some(2));
    app.decrement_list_selected_index();
    assert_eq!(app.get_list_selected_index(), Some(1));
    app.decrement_list_selected_index();
    assert_eq!(app.get_list_selected_index(), Some(0));
}

#[test]
fn as_many_moves_as_tasks_come_round() {
    for start in 0..3 {
        let mut app = three();
        app.advance_focus();
        for _ in 0..start {
            app.increment_list_selected_index();
        }
        assert_eq!(app.get_list_selected_index(), Some(start));
        for _ in 0..3 {
            app.increment_list_selected_index();
        }
        assert_eq!(app.get_list_selected_index(), Some(start));
        for _ in 0..3 {
            app.decrement_list_selected_index();
        }
        assert_eq!(app.get_list_selected_index(), Some(start));
    }
}

#[test]
fn single_task_list_stays_on_its_only_line() {
    let mut app = App::new(Some(Ok(vec![item(1, "only")])));
    app.advance_focus();
    app.increment_list_selected_index();
    assert_eq!(app.get_list_selected_index(), Some(0));
    app.decrement_list_selected_index();
    assert_eq!(app.get_list_selected_index(), Some(0));
}

#[test]
fn get_list_selected_index_is_absent_outside_the_list() {
    let mut app = three();
    assert_eq!(app.get_list_selected_index(), None);
    app.advance_focus();
    assert_eq!(app.get_list_selected_index(), Some(0));
    app.advance_focus();
    assert_eq!(app.get_list_selected_index(), None);
    app.advance_focus();
    assert_eq!(app.get_list_selected_index(), None);
}

#[test]
fn field_moves_cycle_inside_the_detail() {
    let mut app = three();
    app.select_next_panel();
    app.select_next_panel();
    app.select_next_panel();
    let field = |app: &App| match *app.get_selected_panel() {
        SelectedPanel::Task(Some((_, _, field))) => Some(field),
        _ => None,
    };
    assert_eq!(field(&app), Some(SelectedTaskField::Status));
    app.select_next_task_field();
    assert_eq!(field(&app), Some(SelectedTaskField::CompleteBy));
    app.select_next_task_field();
    assert_eq!(field(&app), Some(SelectedTaskField::Description));
    app.select_next_task_field();
    assert_eq!(field(&app), Some(SelectedTaskField::Status));
    app.select_previous_task_field();
    assert_eq!(field(&app), Some(SelectedTaskField::Description));
    app.select_previous_task_field();
    assert_eq!(field(&app), Some(SelectedTaskField::CompleteBy));
    app.select_previous_task_field();
    assert_eq!(field(&app), Some(SelectedTaskField::Status));
}

#[test]
fn field_moves_do_nothing_outside_the_detail() {
    let mut app = three();
    app.select_next_task_field();
    assert_eq!(*app.get_selected_panel(), SelectedPanel::Unfocused);
    app.select_next_panel();
    app.select_previous_task_field();
    assert_eq!(*app.get_selected_panel(), SelectedPanel::List(Some(0)));
    app.select_next_panel();
    app.select_next_task_field();
    assert_eq!(*app.get_selected_panel(), SelectedPanel::Title(Some((0, id(11)))));
}

#[test]
fn field_order_is_a_cycle_of_three() {
    assert_eq!(SelectedTaskField::Status.next(), SelectedTaskField::CompleteBy);
    assert_eq!(SelectedTaskField::CompleteBy.next(), SelectedTaskField::Description);
    assert_eq!(SelectedTaskField::Description.next(), SelectedTaskField::Status);
    assert_eq!(SelectedTaskField::Status.previous(), SelectedTaskField::Description);
    assert_eq!(SelectedTaskField::CompleteBy.previous(), SelectedTaskField::Status);
    assert_eq!(SelectedTaskField::Description.previous(), SelectedTaskField::CompleteBy);
}

#[test]
fn removing_the_bound_task_leaves_a_binding_that_finds_nothing() {
    let mut app = three();
    app.advance_focus();
    app.increment_list_selected_index();
    app.advance_focus();
    assert_eq!(*app.get_selected_panel(), SelectedPanel::Title(Some((1, id(22)))));
    app.remove_task(id(22));
    assert_eq!(*app.get_selected_panel(), SelectedPanel::Title(Some((1, id(22)))));
    assert_eq!(app.get_task_by_uuid(id(22)), None);
    app.advance_focus();
    assert_eq!(
        *app.get_selected_panel(),
        SelectedPanel::Task(Some((1, id(22), SelectedTaskField::Status)))
    );
    assert_eq!(app.get_task_by_uuid(id(22)), None);
}

#[test]
fn binding_survives_a_change_of_order() {
    let mut app = three();
    app.advance_focus();
    app.increment_list_selected_index();
    app.advance_focus();
    app.advance_focus();
    app.remove_task(id(11));
    assert_eq!(
        *app.get_selected_panel(),
        SelectedPanel::Task(Some((1, id(22), SelectedTaskField::Status)))
    );
    assert_eq!(app.get_task_by_uuid(id(22)).map(|found| found.title.as_str()), Some("b"));
    assert_eq!(app.get_task_by_index(1).map(|found| found.title.as_str()), Some("c"));
}

#[test]
fn leaving_a_panel_whose_position_is_gone_selects_nothing() {
    let mut app = three();
    app.advance_focus();
    app.decrement_list_selected_index();
    app.advance_focus();
    assert_eq!(*app.get_selected_panel(), SelectedPanel::Title(Some((2, id(33)))));
    app.remove_task(id(33));
    app.retreat_focus();
    assert_eq!(*app.get_selected_panel(), SelectedPanel::List(None));
}

#[test]
fn leaving_a_panel_whose_position_still_exists_selects_it() {
    let mut app = three();
    app.advance_focus();
    app.increment_list_selected_index();
    app.advance_focus();
    app.remove_task(id(22));
    app.retreat_focus();
    assert_eq!(*app.get_selected_panel(), SelectedPanel::List(Some(1)));
    app.advance_focus();
    assert_eq!(*app.get_selected_panel(), SelectedPanel::Title(Some((1, id(33)))));
}

#[test]
fn list_selection_beyond_the_store_binds_nothing() {
    let mut app = three();
    app.advance_focus();
    app.decrement_list_selected_index();
    app.remove_task(id(33));
    assert_eq!(*app.get_selected_panel(), SelectedPanel::List(Some(2)));
    app.advance_focus();
    assert_eq!(*app.get_selected_panel(), SelectedPanel::Title(None));
}

#[test]
fn list_selection_beyond_the_store_moves_back_inside() {
    let mut down = three();
    down.advance_focus();
    down.decrement_list_selected_index();
    down.remove_task(id(33));
    down.remove_task(id(22));
    assert_eq!(*down.get_selected_panel(), SelectedPanel::List(Some(2)));
    down.increment_list_selected_index();
    assert_eq!(*down.get_selected_panel(), SelectedPanel::List(Some(0)));

    let mut up = three();
    up.advance_focus();
    up.decrement_list_selected_index();
    up.remove_task(id(33));
    assert_eq!(*up.get_selected_panel(), SelectedPanel::List(Some(2)));
    up.decrement_list_selected_index();
    assert_eq!(*up.get_selected_panel(), SelectedPanel::List(Some(1)));
}

#[test]
fn list_selection_stays_when_the_store_runs_empty() {
    let mut app = App::new(Some(Ok(vec![item(1, "only")])));
    app.advance_focus();
    app.remove_task(id(1));
    app.increment_list_selected_index();
    assert_eq!(*app.get_selected_panel(), SelectedPanel::List(Some(0)));
    app.decrement_list_selected_index();
    assert_eq!(*app.get_selected_panel(), SelectedPanel::List(Some(0)));
    app.advance_focus();
    assert_eq!(*app.get_selected_panel(), SelectedPanel::Title(None));
    app.advance_focus();
    app.advance_focus();
    assert_eq!(*app.get_selected_panel(), SelectedPanel::List(None));
}
