//! The key bindings: what each key does to the screen, in each mode.

use vstd::prelude::*;

use crate::app::{
    edit_writes, spec_add_task, spec_back_to_parent, spec_cancel_delete, spec_confirm_delete,
    spec_edit_task, spec_enter_subtask, spec_move_down, spec_move_up, spec_start_deleting,
    spec_start_editing, spec_toggle_complete, toggle_writes, App, AppView,
};
use crate::model::{hyphenated_uuid_shape, FilterMode, InputMode};
use crate::text::{pop_char, push_char, spec_is_blank};

verus! {

/// A key press, as far as the bindings tell keys apart.
#[derive(Clone, Copy, Debug, PartialEq, Eq, Structural)]
pub enum Key {
    Char(char),
    Enter,
    Esc,
    Backspace,
    Up,
    Down,
    Left,
    Right,
    Other,
}

/// What the surroundings must do after a key: nothing, leave, write the
/// task list, or write the settings.
#[derive(Clone, Copy, Debug, PartialEq, Eq, Structural)]
pub enum Action {
    Continue,
    Quit,
    SaveTasks,
    SaveSettings,
}

/// The keyboard is typing into the input line or confirming a deletion.
pub open spec fn is_input_mode(m: InputMode) -> bool {
    m == InputMode::Adding || m == InputMode::Editing || m == InputMode::Deleting
}

/// The input line takes characters: neither a deletion is being confirmed
/// nor the manual shown.
pub open spec fn takes_text(m: InputMode) -> bool {
    m != InputMode::Deleting && m != InputMode::Help
}

/// The typed character appended to the input line.
pub open spec fn typed(s: AppView, c: char) -> AppView {
    AppView { input_buffer: s.input_buffer.push(c), ..s }
}

/// What a key does while typing or confirming. `new_id` is the id a task
/// added by the key gets.
pub open spec fn spec_handle_input(s: AppView, key: Key, new_id: Seq<char>) -> AppView {
    match key {
        Key::Enter => if s.input_mode == InputMode::Adding {
            spec_add_task(s, new_id)
        } else if s.input_mode == InputMode::Editing {
            spec_edit_task(s)
        } else {
            s
        },
        Key::Esc => AppView {
            input_buffer: Seq::empty(),
            editing_task_id: None,
            deleting_task_id: None,
            input_mode: InputMode::Normal,
            ..s
        },
        Key::Char(c) => if c == 'm' {
            if s.input_mode == InputMode::Help {
                AppView { input_mode: InputMode::Normal, ..s }
            } else {
                s
            }
        } else if c == 'y' || c == 'Y' {
            if s.input_mode == InputMode::Deleting {
                spec_confirm_delete(s)
            } else {
                typed(s, c)
            }
        } else if c == 'n' || c == 'N' {
            if s.input_mode == InputMode::Deleting {
                spec_cancel_delete(s)
            } else {
                typed(s, c)
            }
        } else if takes_text(s.input_mode) {
            typed(s, c)
        } else if s.input_mode == InputMode::Deleting {
            spec_cancel_delete(s)
        } else {
            s
        },
        Key::Backspace => if takes_text(s.input_mode) {
            AppView {
                input_buffer: if s.input_buffer.len() > 0 {
                    s.input_buffer.drop_last()
                } else {
                    s.input_buffer
                },
                ..s
            }
        } else {
            s
        },
        _ => if s.input_mode == InputMode::Deleting {
            spec_cancel_delete(s)
        } else if s.input_mode == InputMode::Help {
            AppView { input_mode: InputMode::Normal, ..s }
        } else {
            s
        },
    }
}

/// Whether a key while typing or confirming changes the task list: Enter
/// adding a non-blank task or writing an edit, or `y` confirming a pending
/// deletion.
pub open spec fn input_saves(s: AppView, key: Key) -> bool {
    match key {
        Key::Enter => if s.input_mode == InputMode::Adding {
            !spec_is_blank(s.input_buffer)
        } else if s.input_mode == InputMode::Editing {
            edit_writes(s)
        } else {
            false
        },
        Key::Char(c) => (c == 'y' || c == 'Y') && s.input_mode == InputMode::Deleting
            && s.deleting_task_id is Some,
        _ => false,
    }
}

/// Choosing a filter: the cursor goes back to the top.
pub open spec fn with_filter(s: AppView, f: FilterMode) -> AppView {
    AppView { filter_mode: f, selected_index: 0, ..s }
}

/// What a key does while browsing the list (or showing the manual).
pub open spec fn spec_handle_normal(s: AppView, key: Key) -> AppView {
    match key {
        Key::Char(c) => if c == 'q' {
            s
        } else if c == 'a' {
            with_filter(s, FilterMode::All)
        } else if c == 'u' {
            with_filter(s, FilterMode::Unfinished)
        } else if c == 'c' {
            with_filter(s, FilterMode::Completed)
        } else if c == 'n' {
            AppView { input_mode: InputMode::Adding, ..s }
        } else if c == 'e' {
            spec_start_editing(s)
        } else if c == 'd' {
            spec_start_deleting(s)
        } else if c == 'j' {
            spec_move_down(s)
        } else if c == 'k' {
            spec_move_up(s)
        } else if c == ' ' || c == 't' {
            spec_toggle_complete(s)
        } else if c == 'l' {
            spec_enter_subtask(s)
        } else if c == 'h' {
            spec_back_to_parent(s)
        } else if c == '|' {
            AppView {
                split_view: !s.split_view,
                settings: crate::model::Settings { split_view: !s.split_view, ..s.settings },
                ..s
            }
        } else if c == 'm' {
            AppView {
                input_mode: if s.input_mode == InputMode::Help {
                    InputMode::Normal
                } else {
                    InputMode::Help
                },
                ..s
            }
        } else {
            s
        },
        Key::Down => spec_move_down(s),
        Key::Up => spec_move_up(s),
        Key::Enter | Key::Right => spec_enter_subtask(s),
        Key::Backspace | Key::Left => spec_back_to_parent(s),
        _ => s,
    }
}

/// What the surroundings must do after a key while browsing: leave on `q`,
/// write the settings after splitting or joining the screen, write the task
/// list after completing changed it.
pub open spec fn normal_action(s: AppView, key: Key) -> Action {
    match key {
        Key::Char(c) => if c == 'q' {
            Action::Quit
        } else if c == '|' {
            Action::SaveSettings
        } else if (c == ' ' || c == 't') && toggle_writes(s) {
            Action::SaveTasks
        } else {
            Action::Continue
        },
        _ => Action::Continue,
    }
}

/// What a key does, in whatever mode the screen is.
pub open spec fn spec_handle_key(s: AppView, key: Key, new_id: Seq<char>) -> AppView {
    if is_input_mode(s.input_mode) {
        spec_handle_input(s, key, new_id)
    } else {
        spec_handle_normal(s, key)
    }
}

/// What the surroundings must do after a key, in whatever mode.
pub open spec fn key_action(s: AppView, key: Key) -> Action {
    if is_input_mode(s.input_mode) {
        if input_saves(s, key) {
            Action::SaveTasks
        } else {
            Action::Continue
        }
    } else {
        normal_action(s, key)
    }
}

/// Handles a key while typing a task, editing a title or confirming a
/// deletion. Returns whether the task list changed and should be saved.
pub fn handle_input_mode(app: &mut App, key: Key) -> (saved: bool)
    ensures
        saved == input_saves(old(app)@, key),
        final(app)@ == spec_handle_input(old(app)@, key, final(app)@.tasks.last().id),
        saved && key == Key::Enter && old(app)@.input_mode == InputMode::Adding
            ==> hyphenated_uuid_shape(final(app)@.tasks.last().id),
{
    match key {
        Key::Enter => {
            if app.input_mode == InputMode::Adding {
                app.add_task()
            } else if app.input_mode == InputMode::Editing {
                app.edit_task()
            } else {
                false
            }
        },
        Key::Esc => {
            app.input_buffer = String::new();
            app.editing_task_id = None;
            app.deleting_task_id = None;
            app.input_mode = InputMode::Normal;
            false
        },
        Key::Char(c) => {
            if c == 'm' {
                if app.input_mode == InputMode::Help {
                    app.input_mode = InputMode::Normal;
                }
                false
            } else if c == 'y' || c == 'Y' {
                if app.input_mode == InputMode::Deleting {
                    app.confirm_delete()
                } else {
                    push_char(&mut app.input_buffer, c);
                    false
                }
            } else if c == 'n' || c == 'N' {
                if app.input_mode == InputMode::Deleting {
                    app.cancel_delete();
                } else {
                    push_char(&mut app.input_buffer, c);
                }
                false
            } else {
                if app.input_mode != InputMode::Deleting && app.input_mode != InputMode::Help {
                    push_char(&mut app.input_buffer, c);
                } else if app.input_mode == InputMode::Deleting {
                    app.cancel_delete();
                }
                false
            }
        },
        Key::Backspace => {
            if app.input_mode != InputMode::Deleting && app.input_mode != InputMode::Help {
                let _ = pop_char(&mut app.input_buffer);
            }
            false
        },
        _ => {
            if app.input_mode == InputMode::Deleting {
                app.cancel_delete();
            } else if app.input_mode == InputMode::Help {
                app.input_mode = InputMode::Normal;
            }
            false
        },
    }
}

/// Handles a key while browsing the list or showing the manual, and says
/// what the surroundings must do next.
pub fn handle_normal_mode(app: &mut App, key: Key) -> (action: Action)
    ensures
        action == normal_action(old(app)@, key),
        final(app)@ == spec_handle_normal(old(app)@, key),
{
    match key {
        Key::Char(c) => {
            if c == 'q' {
                return Action::Quit;
            } else if c == 'a' {
                app.filter_mode = FilterMode::All;
                app.selected_index = 0;
            } else if c == 'u' {
                app.filter_mode = FilterMode::Unfinished;
                app.selected_index = 0;
            } else if c == 'c' {
                app.filter_mode = FilterMode::Completed;
                app.selected_index = 0;
            } else if c == 'n' {
                app.input_mode = InputMode::Adding;
            } else if c == 'e' {
                app.start_editing();
            } else if c == 'd' {
                app.delete_task();
            } else if c == 'j' {
                app.move_down();
            } else if c == 'k' {
                app.move_up();
            } else if c == ' ' || c == 't' {
                if app.toggle_complete() {
                    return Action::SaveTasks;
                }
            } else if c == 'l' {
                app.enter_subtask();
            } else if c == 'h' {
                app.back_to_parent();
            } else if c == '|' {
                app.split_view = !app.split_view;
                app.settings.split_view = app.split_view;
                return Action::SaveSettings;
            } else if c == 'm' {
                if app.input_mode == InputMode::Help {
                    app.input_mode = InputMode::Normal;
                } else {
                    app.input_mode = InputMode::Help;
                }
            }
        },
        Key::Down => app.move_down(),
        Key::Up => app.move_up(),
        Key::Enter | Key::Right => app.enter_subtask(),
        Key::Backspace | Key::Left => app.back_to_parent(),
        _ => {},
    }
    Action::Continue
}

/// Handles a key: while typing or confirming it goes to
/// `handle_input_mode`, otherwise to `handle_normal_mode`.
pub fn handle_key(app: &mut App, key: Key) -> (action: Action)
    ensures
        action == key_action(old(app)@, key),
        final(app)@ == spec_handle_key(old(app)@, key, final(app)@.tasks.last().id),
        action == Action::SaveTasks && key == Key::Enter && old(app)@.input_mode == InputMode::Adding
            ==> hyphenated_uuid_shape(final(app)@.tasks.last().id),
{
    if app.input_mode == InputMode::Adding || app.input_mode == InputMode::Editing
        || app.input_mode == InputMode::Deleting {
        if handle_input_mode(app, key) {
            Action::SaveTasks
        } else {
            Action::Continue
        }
    } else {
        handle_normal_mode(app, key)
    }
}

} // verus!
