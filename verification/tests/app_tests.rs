use terdo::app::App;
use terdo::keys::{handle_input_mode, handle_key, handle_normal_mode, Action, Key};
use terdo::model::{FilterMode, InputMode, Pane, Settings, Task};

fn task(id: &str, title: &str, completed: bool, parent: Option<&str>) -> Task {
    Task {
        id: id.to_string(),
        title: title.to_string(),
        completed,
        parent_id: parent.map(|p| p.to_string()),
    }
}

fn sample() -> App {
    App::new(
        vec![
            task("a", "Shopping", false, None),
            task("b", "Milk", true, Some("a")),
            task("c", "Eggs", false, Some("a")),
            task("d", "Taxes", true, None),
            task("e", "Report", false, None),
        ],
        Settings::default(),
    )
}

fn titles(v: &[&Task]) -> Vec<String> {
    v.iter().map(|t| t.title.clone()).collect()
}

fn type_text(app: &mut App, text: &str) {
    for c in text.chars() {
        handle_key(app, Key::Char(c));
    }
}

#[test]
fn new_app_starts_at_top_level_showing_unfinished_tasks() {
    let app = sample();
    assert_eq!(app.selected_index, 0);
    assert_eq!(app.current_parent, None);
    assert!(app.input_mode == InputMode::Normal);
    assert!(app.filter_mode == FilterMode::Unfinished);
    assert!(app.active_pane == Pane::Left);
    assert!(!app.split_view);
    assert_eq!(titles(&app.get_current_tasks()), vec!["Shopping", "Report"]);
}

#[test]
fn new_app_takes_split_state_from_settings() {
    let mut settings = Settings::default();
    settings.split_view = true;
    let app = App::new(vec![], settings);
    assert!(app.split_view);
}

#[test]
fn completed_filter_shows_parents_of_completed_subtasks() {
    let mut app = sample();
    app.filter_mode = FilterMode::Completed;
    assert_eq!(titles(&app.get_current_tasks()), vec!["Shopping", "Taxes"]);
    app.filter_mode = FilterMode::All;
    assert_eq!(titles(&app.get_current_tasks()), vec!["Shopping", "Taxes", "Report"]);
}

#[test]
fn subtask_queries() {
    let mut app = sample();
    assert_eq!(titles(&app.get_subtasks("a")), vec!["Milk", "Eggs"]);
    assert!(app.has_completed_subtasks("a"));
    assert!(!app.has_completed_subtasks("e"));
    assert_eq!(titles(&app.get_filtered_subtasks("a")), vec!["Eggs"]);
    app.filter_mode = FilterMode::Completed;
    assert_eq!(titles(&app.get_filtered_subtasks("a")), vec!["Milk"]);
    app.filter_mode = FilterMode::All;
    assert_eq!(titles(&app.get_filtered_subtasks("a")), vec!["Milk", "Eggs"]);
}

#[test]
fn add_task_appends_an_unfinished_task_with_a_uuid() {
    let mut app = sample();
    app.input_mode = InputMode::Adding;
    app.input_buffer = "Call mom".to_string();
    assert!(app.add_task());
    let t = app.tasks.last().unwrap();
    assert_eq!(t.title, "Call mom");
    assert!(!t.completed);
    assert_eq!(t.parent_id, None);
    assert_eq!(t.id.len(), 36);
    assert_eq!(t.id.chars().nth(8), Some('-'));
    assert_eq!(t.id.chars().nth(14), Some('4'));
    assert_eq!(app.tasks.len(), 6);
    assert_eq!(app.input_buffer, "");
    assert!(app.input_mode == InputMode::Normal);
    assert_eq!(titles(&app.get_current_tasks()), vec!["Shopping", "Report", "Call mom"]);
}

#[test]
fn add_task_ignores_blank_input() {
    let mut app = sample();
    app.input_mode = InputMode::Adding;
    app.input_buffer = "   ".to_string();
    assert!(!app.add_task());
    assert_eq!(app.tasks.len(), 5);
    assert_eq!(app.input_buffer, "");
    assert!(app.input_mode == InputMode::Normal);
}

#[test]
fn new_task_in_the_right_pane_is_a_subtask_of_the_selected_task() {
    let mut app = sample();
    app.split_view = true;
    app.active_pane = Pane::Right;
    assert_eq!(app.get_parent_for_new_task(), Some("a".to_string()));
    app.input_buffer = "Bread".to_string();
    app.add_task();
    assert_eq!(app.tasks.last().unwrap().parent_id, Some("a".to_string()));
    app.active_pane = Pane::Left;
    assert_eq!(app.get_parent_for_new_task(), None);
}

#[test]
fn editing_replaces_the_title() {
    let mut app = sample();
    app.selected_index = 1;
    app.start_editing();
    assert!(app.input_mode == InputMode::Editing);
    assert_eq!(app.editing_task_id, Some("e".to_string()));
    assert_eq!(app.input_buffer, "Report");
    app.input_buffer = "Quarterly report".to_string();
    assert!(app.edit_task());
    assert_eq!(app.tasks[4].title, "Quarterly report");
    assert_eq!(app.editing_task_id, None);
    assert!(app.input_mode == InputMode::Normal);
}

#[test]
fn editing_with_blank_text_keeps_the_title() {
    let mut app = sample();
    app.start_editing();
    app.input_buffer = " ".to_string();
    assert!(!app.edit_task());
    assert_eq!(app.tasks[0].title, "Shopping");
    assert_eq!(app.input_buffer, "");
}

#[test]
fn start_editing_on_an_empty_list_does_nothing() {
    let mut app = App::new(vec![], Settings::default());
    app.start_editing();
    assert!(app.input_mode == InputMode::Normal);
    assert_eq!(app.editing_task_id, None);
}

#[test]
fn deleting_removes_the_task_and_its_subtasks() {
    let mut app = sample();
    app.delete_task();
    assert!(app.input_mode == InputMode::Deleting);
    assert_eq!(app.deleting_task_id, Some("a".to_string()));
    assert!(app.confirm_delete());
    let ids: Vec<&str> = app.tasks.iter().map(|t| t.id.as_str()).collect();
    assert_eq!(ids, vec!["d", "e"]);
    assert_eq!(app.deleting_task_id, None);
    assert!(app.input_mode == InputMode::Normal);
}

#[test]
fn deleting_the_last_task_of_the_list_moves_the_cursor_up() {
    let mut app = sample();
    app.selected_index = 1;
    app.start_deleting();
    app.confirm_delete();
    assert_eq!(app.selected_index, 0);
    assert_eq!(titles(&app.get_current_tasks()), vec!["Shopping"]);
}

#[test]
fn deleting_a_subtask_in_the_right_pane_moves_its_cursor_up() {
    let mut app = sample();
    app.split_view = true;
    app.active_pane = Pane::Right;
    app.filter_mode = FilterMode::All;
    app.right_pane_selected_index = 1;
    app.start_deleting();
    assert_eq!(app.deleting_task_id, Some("c".to_string()));
    app.confirm_delete();
    assert_eq!(app.right_pane_selected_index, 0);
    assert_eq!(app.tasks.len(), 4);
}

#[test]
fn cancelling_a_deletion_keeps_the_tasks() {
    let mut app = sample();
    app.start_deleting();
    app.cancel_delete();
    assert_eq!(app.tasks.len(), 5);
    assert_eq!(app.deleting_task_id, None);
    assert!(app.input_mode == InputMode::Normal);
}

#[test]
fn confirm_without_pending_deletion_changes_nothing() {
    let mut app = sample();
    assert!(!app.confirm_delete());
    assert_eq!(app.tasks.len(), 5);
}

#[test]
fn toggling_twice_with_all_tasks_shown_restores_the_list() {
    let mut app = sample();
    app.filter_mode = FilterMode::All;
    app.selected_index = 1;
    assert!(app.toggle_complete());
    assert!(!app.tasks[3].completed);
    assert!(app.toggle_complete());
    assert!(app.tasks[3].completed);
}

#[test]
fn completing_a_task_hides_it_from_the_unfinished_list() {
    let mut app = sample();
    app.selected_index = 1;
    assert!(app.toggle_complete());
    assert!(app.tasks[4].completed);
    assert_eq!(titles(&app.get_current_tasks()), vec!["Shopping"]);
}

#[test]
fn toggling_in_the_right_pane_acts_on_the_subtask() {
    let mut app = sample();
    app.split_view = true;
    app.active_pane = Pane::Right;
    assert!(app.toggle_complete());
    assert!(app.tasks[2].completed);
    assert!(!app.tasks[0].completed);
}

#[test]
fn moving_stays_inside_the_list() {
    let mut app = sample();
    app.move_up();
    assert_eq!(app.selected_index, 0);
    app.move_down();
    assert_eq!(app.selected_index, 1);
    app.move_down();
    assert_eq!(app.selected_index, 1);
    app.move_up();
    assert_eq!(app.selected_index, 0);
}

#[test]
fn moving_in_the_list_of_a_split_screen_resets_the_subtask_cursor() {
    let mut app = sample();
    app.split_view = true;
    app.right_pane_selected_index = 3;
    app.move_down();
    assert_eq!(app.selected_index, 1);
    assert_eq!(app.right_pane_selected_index, 0);
}

#[test]
fn moving_in_the_right_pane() {
    let mut app = sample();
    app.split_view = true;
    app.active_pane = Pane::Right;
    app.filter_mode = FilterMode::All;
    app.move_down();
    assert_eq!(app.right_pane_selected_index, 1);
    app.move_down();
    assert_eq!(app.right_pane_selected_index, 1);
    app.move_up();
    app.move_up();
    assert_eq!(app.right_pane_selected_index, 0);
}

#[test]
fn entering_and_leaving_a_sublist() {
    let mut app = sample();
    app.enter_subtask();
    assert_eq!(app.current_parent, Some("a".to_string()));
    assert_eq!(titles(&app.get_current_tasks()), vec!["Eggs"]);
    app.back_to_parent();
    assert_eq!(app.current_parent, None);
    assert_eq!(app.selected_index, 0);
}

#[test]
fn back_from_a_vanished_parent_goes_to_the_top() {
    let mut app = sample();
    app.current_parent = Some("zzz".to_string());
    app.selected_index = 4;
    app.back_to_parent();
    assert_eq!(app.current_parent, None);
    assert_eq!(app.selected_index, 0);
}

#[test]
fn entering_on_a_split_screen_activates_the_right_pane() {
    let mut app = sample();
    app.split_view = true;
    app.right_pane_selected_index = 2;
    app.enter_subtask();
    assert!(app.active_pane == Pane::Right);
    assert_eq!(app.right_pane_selected_index, 0);
    assert_eq!(app.current_parent, None);
    app.back_to_parent();
    assert!(app.active_pane == Pane::Left);
}

#[test]
fn typing_a_new_task_with_keys() {
    let mut app = sample();
    assert!(handle_key(&mut app, Key::Char('n')) == Action::Continue);
    assert!(app.input_mode == InputMode::Adding);
    type_text(&mut app, "Buy yarn");
    handle_key(&mut app, Key::Backspace);
    assert_eq!(app.input_buffer, "Buy yar");
    assert!(handle_key(&mut app, Key::Enter) == Action::SaveTasks);
    assert_eq!(app.tasks.last().unwrap().title, "Buy yar");
    let id = &app.tasks.last().unwrap().id;
    assert_eq!(id.len(), 36);
    assert_eq!(id.chars().nth(23), Some('-'));
    assert_eq!(id.chars().nth(14), Some('4'));
    assert!(app.input_mode == InputMode::Normal);
}

#[test]
fn the_m_key_is_not_typed_into_the_input_line() {
    let mut app = sample();
    app.input_mode = InputMode::Adding;
    assert!(!handle_input_mode(&mut app, Key::Char('m')));
    assert_eq!(app.input_buffer, "");
    assert!(app.input_mode == InputMode::Adding);
}

#[test]
fn escape_abandons_the_input() {
    let mut app = sample();
    handle_key(&mut app, Key::Char('e'));
    assert!(app.input_mode == InputMode::Editing);
    assert!(handle_key(&mut app, Key::Esc) == Action::Continue);
    assert!(app.input_mode == InputMode::Normal);
    assert_eq!(app.input_buffer, "");
    assert_eq!(app.editing_task_id, None);
    assert_eq!(app.tasks[0].title, "Shopping");
}

#[test]
fn deleting_with_keys_asks_for_confirmation() {
    let mut app = sample();
    handle_key(&mut app, Key::Char('d'));
    assert!(app.input_mode == InputMode::Deleting);
    assert!(handle_key(&mut app, Key::Char('x')) == Action::Continue);
    assert!(app.input_mode == InputMode::Normal);
    assert_eq!(app.tasks.len(), 5);
    handle_key(&mut app, Key::Char('d'));
    assert!(handle_key(&mut app, Key::Char('N')) == Action::Continue);
    assert_eq!(app.tasks.len(), 5);
    handle_key(&mut app, Key::Char('d'));
    assert!(handle_key(&mut app, Key::Char('Y')) == Action::SaveTasks);
    assert_eq!(app.tasks.len(), 2);
}

#[test]
fn other_keys_cancel_a_deletion() {
    let mut app = sample();
    handle_key(&mut app, Key::Char('d'));
    assert!(handle_key(&mut app, Key::Up) == Action::Continue);
    assert!(app.input_mode == InputMode::Normal);
    assert_eq!(app.deleting_task_id, None);
}

#[test]
fn filter_keys_select_the_filter_and_reset_the_cursor() {
    let mut app = sample();
    app.selected_index = 1;
    handle_normal_mode(&mut app, Key::Char('a'));
    assert!(app.filter_mode == FilterMode::All);
    assert_eq!(app.selected_index, 0);
    handle_normal_mode(&mut app, Key::Char('c'));
    assert!(app.filter_mode == FilterMode::Completed);
    handle_normal_mode(&mut app, Key::Char('u'));
    assert!(app.filter_mode == FilterMode::Unfinished);
}

#[test]
fn quit_and_split_keys() {
    let mut app = sample();
    assert!(handle_key(&mut app, Key::Char('q')) == Action::Quit);
    assert!(handle_key(&mut app, Key::Char('|')) == Action::SaveSettings);
    assert!(app.split_view);
    assert!(app.settings.split_view);
    assert!(handle_key(&mut app, Key::Char('|')) == Action::SaveSettings);
    assert!(!app.split_view);
    assert!(!app.settings.split_view);
}

#[test]
fn space_completes_and_asks_to_save() {
    let mut app = sample();
    assert!(handle_key(&mut app, Key::Char(' ')) == Action::SaveTasks);
    assert!(app.tasks[0].completed);
    let mut empty = App::new(vec![], Settings::default());
    assert!(handle_key(&mut empty, Key::Char(' ')) == Action::Continue);
}

#[test]
fn navigation_keys() {
    let mut app = sample();
    handle_key(&mut app, Key::Char('j'));
    assert_eq!(app.selected_index, 1);
    handle_key(&mut app, Key::Up);
    assert_eq!(app.selected_index, 0);
    handle_key(&mut app, Key::Down);
    handle_key(&mut app, Key::Char('k'));
    assert_eq!(app.selected_index, 0);
    handle_key(&mut app, Key::Char('l'));
    assert_eq!(app.current_parent, Some("a".to_string()));
    handle_key(&mut app, Key::Left);
    assert_eq!(app.current_parent, None);
    handle_key(&mut app, Key::Right);
    handle_key(&mut app, Key::Char('h'));
    assert_eq!(app.current_parent, None);
    handle_key(&mut app, Key::Enter);
    handle_key(&mut app, Key::Backspace);
    assert_eq!(app.current_parent, None);
}

#[test]
fn the_m_key_opens_and_closes_the_manual() {
    let mut app = sample();
    handle_key(&mut app, Key::Char('m'));
    assert!(app.input_mode == InputMode::Help);
    handle_key(&mut app, Key::Char('j'));
    assert_eq!(app.selected_index, 1);
    assert!(app.input_mode == InputMode::Help);
    handle_key(&mut app, Key::Char('m'));
    assert!(app.input_mode == InputMode::Normal);
}

fn modes_consistent(app: &App) -> bool {
    (app.input_mode == InputMode::Editing) == app.editing_task_id.is_some()
        && (app.input_mode == InputMode::Deleting) == app.deleting_task_id.is_some()
}

#[test]
fn keys_keep_pending_edits_and_deletions_in_step_with_the_mode() {
    let mut app = sample();
    let keys = [
        Key::Char('e'),
        Key::Char('x'),
        Key::Enter,
        Key::Char('d'),
        Key::Backspace,
        Key::Char('m'),
        Key::Enter,
        Key::Esc,
        Key::Char('m'),
        Key::Char('d'),
        Key::Char('y'),
        Key::Char('n'),
        Key::Char('z'),
        Key::Esc,
    ];
    assert!(modes_consistent(&app));
    for k in keys {
        handle_key(&mut app, k);
        assert!(modes_consistent(&app));
    }
}

#[test]
fn the_t_key_completes_like_space() {
    let mut app = sample();
    assert!(handle_key(&mut app, Key::Char('t')) == Action::SaveTasks);
    assert!(app.tasks[0].completed);
    assert!(handle_normal_mode(&mut app, Key::Char('t')) == Action::SaveTasks);
    assert!(app.tasks[4].completed);
    let mut empty = App::new(vec![], Settings::default());
    assert!(handle_key(&mut empty, Key::Char('t')) == Action::Continue);
}

#[test]
fn deleting_the_selected_task_shortens_the_list_by_one() {
    for filter in [FilterMode::Unfinished, FilterMode::Completed, FilterMode::All] {
        for sel in 0..3 {
            let mut app = sample();
            app.filter_mode = filter;
            let before = app.get_current_tasks().len();
            if sel >= before {
                continue;
            }
            app.selected_index = sel;
            app.start_deleting();
            app.confirm_delete();
            let after = app.get_current_tasks().len();
            assert_eq!(after + 1, before);
            assert!(app.selected_index < after || (after == 0 && app.selected_index == 0));
        }
    }
}
