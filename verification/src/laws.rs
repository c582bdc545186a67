//! Properties of the to-do screen that span several operations or hold of
//! every input.

use vstd::prelude::*;

use crate::app::{
    child_pred, current_tasks, filtered_subtasks, first_with_id, is_first_with_id, level_pred,
    lemma_first_with_id_found, right_pane_active, selected_subtask, selected_task, shown_by_filter,
    spec_add_task, spec_back_to_parent, spec_confirm_delete, spec_enter_subtask, spec_move_down,
    spec_move_up, spec_start_deleting, spec_toggle_complete, subtask_pred, subtasks, survives_delete, target_task,
    toggle_writes, toggled, AppView, TaskView, parent_for_new_task,
};
use crate::model::{FilterMode, InputMode};
use crate::keys::{spec_handle_key, Key};
use crate::text::{col_width, cols, fit_count, spec_is_blank, spec_wrap_text, wrap_state};
use crate::model::Settings;
use crate::app::{initial_state, spec_start_editing};

verus! {

/// Two lists of tasks have the same length and, position by position, the
/// same ids and parents.
pub open spec fn same_shape(a: Seq<TaskView>, b: Seq<TaskView>) -> bool {
    &&& a.len() == b.len()
    &&& forall|i: int| 0 <= i < a.len() ==> (#[trigger] a[i]).id == b[i].id && a[i].parent_id == b[i].parent_id
}

/// No two tasks share an id.
pub open spec fn unique_ids(tasks: Seq<TaskView>) -> bool {
    forall|i: int, j: int| 0 <= i < tasks.len() && 0 <= j < tasks.len() && i != j
        ==> #[trigger] tasks[i].id != #[trigger] tasks[j].id
}

/// Filtering two lists of the same shape with a test that agrees on them
/// position by position gives lists of the same shape.
proof fn lemma_filter_same_shape(a: Seq<TaskView>, b: Seq<TaskView>, p: spec_fn(TaskView) -> bool)
    requires
        same_shape(a, b),
        forall|i: int| 0 <= i < a.len() ==> p(#[trigger] a[i]) == p(b[i]),
    ensures
        same_shape(a.filter(p), b.filter(p)),
    decreases a.len(),
{
    reveal_with_fuel(Seq::<_>::filter, 1);
    if a.len() > 0 {
        let a1 = a.drop_last();
        let b1 = b.drop_last();
        assert forall|i: int| 0 <= i < a1.len() implies p(#[trigger] a1[i]) == p(b1[i]) by {
            assert(a1[i] == a[i]);
            assert(b1[i] == b[i]);
        }
        assert(same_shape(a1, b1)) by {
            assert forall|i: int| 0 <= i < a1.len() implies (#[trigger] a1[i]).id == b1[i].id
                && a1[i].parent_id == b1[i].parent_id by {
                assert(a1[i] == a[i]);
                assert(b1[i] == b[i]);
            }
        }
        lemma_filter_same_shape(a1, b1, p);
        assert(p(a.last()) == p(b.last())) by {
            assert(a.last() == a[a.len() - 1]);
        }
    }
}

/// `first_with_id` depends only on the ids.
proof fn lemma_first_with_id_same_shape(a: Seq<TaskView>, b: Seq<TaskView>, id: Seq<char>)
    requires
        same_shape(a, b),
    ensures
        first_with_id(a, id) == first_with_id(b, id),
{
    if exists|k: int| is_first_with_id(b, id, k) {
        let k = choose|k: int| is_first_with_id(b, id, k);
        assert(is_first_with_id(a, id, k)) by {
            assert forall|j: int| 0 <= j < k implies #[trigger] a[j].id != id by {
                assert(b[j].id != id);
            }
        }
        lemma_first_with_id_found(a, id, k);
        lemma_first_with_id_found(b, id, k);
    } else if exists|k: int| is_first_with_id(a, id, k) {
        let k = choose|k: int| is_first_with_id(a, id, k);
        assert(is_first_with_id(b, id, k)) by {
            assert forall|j: int| 0 <= j < k implies #[trigger] b[j].id != id by {
                assert(a[j].id != id);
            }
        }
    }
}

/// With every task shown, which tasks and sub-tasks the cursors are on
/// depends only on the ids and parents of the tasks.
proof fn lemma_target_same_shape(s: AppView, t: AppView)
    requires
        s.filter_mode == FilterMode::All,
        t == (AppView { tasks: t.tasks, ..s }),
        same_shape(s.tasks, t.tasks),
    ensures
        same_shape(current_tasks(s), current_tasks(t)),
        selected_task(s) is Some <==> selected_task(t) is Some,
        selected_task(s) is Some ==> selected_task(s)->0.id == selected_task(t)->0.id,
        target_task(s) is Some <==> target_task(t) is Some,
        target_task(s) is Some ==> target_task(s)->0.id == target_task(t)->0.id,
{
    let ps = level_pred(s.tasks, s.current_parent, s.filter_mode);
    let pt = level_pred(t.tasks, t.current_parent, t.filter_mode);
    assert(ps =~= pt);
    assert forall|i: int| 0 <= i < s.tasks.len() implies ps(#[trigger] s.tasks[i]) == ps(t.tasks[i]) by {
        assert(s.tasks[i].parent_id == t.tasks[i].parent_id);
    }
    lemma_filter_same_shape(s.tasks, t.tasks, ps);
    if selected_task(s) is Some {
        let pid = selected_task(s)->0.id;
        assert(current_tasks(s)[s.selected_index as int].id == current_tasks(t)[s.selected_index as int].id);
        let cp = child_pred(pid);
        assert forall|i: int| 0 <= i < s.tasks.len() implies cp(#[trigger] s.tasks[i]) == cp(t.tasks[i]) by {
            assert(s.tasks[i].parent_id == t.tasks[i].parent_id);
        }
        lemma_filter_same_shape(s.tasks, t.tasks, cp);
        let sp = subtask_pred(FilterMode::All);
        let ss = subtasks(s.tasks, pid);
        let ts = subtasks(t.tasks, pid);
        lemma_filter_same_shape(ss, ts, sp);
        assert(filtered_subtasks(s.tasks, pid, s.filter_mode) == ss.filter(sp));
        assert(filtered_subtasks(t.tasks, pid, t.filter_mode) == ts.filter(sp));
        if s.right_pane_selected_index < ss.filter(sp).len() {
            let r = s.right_pane_selected_index as int;
            assert(ss.filter(sp)[r].id == ts.filter(sp)[r].id);
        }
    }
}

/// Completing the same task twice, with every task shown, leaves the screen
/// as it was: the second press flips back the task the first one flipped.
pub proof fn law_toggle_twice_restores(s: AppView)
    requires
        s.filter_mode == FilterMode::All,
    ensures
        spec_toggle_complete(spec_toggle_complete(s)) == s,
{
    let s1 = spec_toggle_complete(s);
    if toggle_writes(s) {
        let id = target_task(s)->0.id;
        let k = first_with_id(s.tasks, id)->0;
        assert(is_first_with_id(s.tasks, id, k));
        assert(same_shape(s.tasks, s1.tasks)) by {
            assert forall|i: int| 0 <= i < s.tasks.len() implies (#[trigger] s.tasks[i]).id == s1.tasks[i].id
                && s.tasks[i].parent_id == s1.tasks[i].parent_id by {
            }
        }
        lemma_target_same_shape(s, s1);
        lemma_first_with_id_same_shape(s.tasks, s1.tasks, id);
        assert(toggle_writes(s1));
        let s2 = spec_toggle_complete(s1);
        assert(s2.tasks =~= s.tasks);
        assert(s2 == s);
    }
}

/// The list shows exactly the tasks of the open list that the filter lets
/// through: each shown task belongs to the open list, is unfinished under
/// the unfinished filter, and is completed or has a completed sub-task under
/// the completed filter; and every such task of the list is shown.
pub proof fn law_filter_shows(s: AppView)
    ensures
        forall|i: int| 0 <= i < current_tasks(s).len() ==> {
            let t = #[trigger] current_tasks(s)[i];
            &&& t.parent_id == s.current_parent
            &&& (s.filter_mode == FilterMode::Unfinished ==> !t.completed)
            &&& (s.filter_mode == FilterMode::Completed ==> t.completed
                || crate::app::spec_has_completed_subtasks(s.tasks, t.id))
        },
        forall|j: int| 0 <= j < s.tasks.len() && s.tasks[j].parent_id == s.current_parent
            && shown_by_filter(s.tasks, s.filter_mode, s.tasks[j])
            ==> current_tasks(s).contains(#[trigger] s.tasks[j]),
{
    broadcast use vstd::seq_lib::group_filter_ensures;

    let p = level_pred(s.tasks, s.current_parent, s.filter_mode);
    assert forall|j: int| 0 <= j < s.tasks.len() && s.tasks[j].parent_id == s.current_parent
        && shown_by_filter(s.tasks, s.filter_mode, s.tasks[j])
        implies current_tasks(s).contains(#[trigger] s.tasks[j]) by {
        assert(p(s.tasks[j]));
    }
    assert forall|i: int| 0 <= i < current_tasks(s).len() implies p(#[trigger] current_tasks(s)[i]) by {
    }
}

/// Confirming a deletion removes the task and its direct sub-tasks and
/// keeps every other task.
pub proof fn law_delete_removes_task_and_children(s: AppView)
    requires
        s.deleting_task_id is Some,
    ensures
        ({
            let id = s.deleting_task_id->0;
            let after = spec_confirm_delete(s).tasks;
            &&& forall|i: int| 0 <= i < after.len() ==> (#[trigger] after[i]).id != id
                && after[i].parent_id != Some(id)
            &&& forall|j: int| 0 <= j < s.tasks.len() && s.tasks[j].id != id
                && s.tasks[j].parent_id != Some(id) ==> after.contains(#[trigger] s.tasks[j])
        }),
{
    broadcast use vstd::seq_lib::group_filter_ensures;

    let id = s.deleting_task_id->0;
    let p = survives_delete(id);
    let after = spec_confirm_delete(s).tasks;
    assert forall|i: int| 0 <= i < after.len() implies (#[trigger] after[i]).id != id
        && after[i].parent_id != Some(id) by {
        assert(p(after[i]));
    }
    assert forall|j: int| 0 <= j < s.tasks.len() && s.tasks[j].id != id
        && s.tasks[j].parent_id != Some(id) implies after.contains(#[trigger] s.tasks[j]) by {
        assert(p(s.tasks[j]));
    }
}

/// While a deletion waits for confirmation, every key but `y` leaves the
/// task list as it is.
pub proof fn law_only_yes_deletes(s: AppView, key: Key, new_id: Seq<char>)
    requires
        s.input_mode == InputMode::Deleting,
        key != Key::Char('y'),
        key != Key::Char('Y'),
    ensures
        spec_handle_key(s, key, new_id).tasks == s.tasks,
{
}

/// A task added to the list the screen shows (the list pane active, and
/// unfinished or all tasks shown) appears at the end of that list, with the
/// typed title, unfinished.
pub proof fn law_added_task_is_listed(s: AppView, new_id: Seq<char>)
    requires
        !right_pane_active(s),
        s.filter_mode != FilterMode::Completed,
        !spec_is_blank(s.input_buffer),
    ensures
        ({
            let after = spec_add_task(s, new_id);
            let cur = current_tasks(after);
            &&& cur.len() == current_tasks(s).len() + 1
            &&& cur.last() == (TaskView {
                id: new_id,
                title: s.input_buffer,
                completed: false,
                parent_id: s.current_parent,
            })
        }),
{
    let after = spec_add_task(s, new_id);
    let p0 = level_pred(s.tasks, s.current_parent, s.filter_mode);
    let p1 = level_pred(after.tasks, after.current_parent, after.filter_mode);
    assert(p0 =~= p1);
    reveal_with_fuel(Seq::<_>::filter, 1);
    assert(after.tasks.drop_last() =~= s.tasks);
    assert(parent_for_new_task(s) == s.current_parent);
}

/// Moving down and then up brings the cursor back to where it was, when the
/// move down moved it; and a move down never leaves the list.
pub proof fn law_down_then_up(s: AppView)
    requires
        s.tasks.len() <= usize::MAX,
    ensures
        ({
            let d = spec_move_down(s);
            &&& (right_pane_active(s) && d.right_pane_selected_index != s.right_pane_selected_index
                ==> spec_move_up(d).right_pane_selected_index == s.right_pane_selected_index)
            &&& (!right_pane_active(s) && d.selected_index != s.selected_index ==> {
                &&& spec_move_up(d).selected_index == s.selected_index
                &&& d.selected_index < current_tasks(s).len()
            })
        }),
{
    broadcast use vstd::seq_lib::group_filter_ensures;

    let cur = current_tasks(s);
    assert(cur.len() <= s.tasks.len());
    if let Some(p) = selected_task(s) {
        let subs = filtered_subtasks(s.tasks, p.id, s.filter_mode);
        assert(subtasks(s.tasks, p.id).len() <= s.tasks.len());
        assert(subs.len() <= subtasks(s.tasks, p.id).len());
    }
}

/// On an unsplit screen, opening the selected task and going back returns
/// to the list that was open, provided no two tasks share an id.
pub proof fn law_enter_then_back(s: AppView)
    requires
        !s.split_view,
        selected_task(s) is Some,
        unique_ids(s.tasks),
    ensures
        spec_back_to_parent(spec_enter_subtask(s)).current_parent == s.current_parent,
        spec_back_to_parent(spec_enter_subtask(s)).selected_index == 0,
{
    broadcast use vstd::seq_lib::group_filter_ensures;

    let t = selected_task(s)->0;
    let p = level_pred(s.tasks, s.current_parent, s.filter_mode);
    let cur = current_tasks(s);
    assert(p(cur[s.selected_index as int]));
    assert(s.tasks.contains(t)) by {
        assert(cur.contains(t)) by {
            assert(cur[s.selected_index as int] == t);
        }
        s.tasks.lemma_filter_contains_rev(p, t);
    }
    let m = choose|m: int| 0 <= m < s.tasks.len() && s.tasks[m] == t;
    assert(is_first_with_id(s.tasks, t.id, m)) by {
        assert forall|j: int| 0 <= j < m implies #[trigger] s.tasks[j].id != t.id by {
            assert(s.tasks[j].id != s.tasks[m].id);
        }
    }
    lemma_first_with_id_found(s.tasks, t.id, m);
}

/// The split state kept in the settings (and written to the settings file)
/// follows the screen: if they agree before a key, they agree after it.
pub proof fn law_split_setting_follows_screen(s: AppView, key: Key, new_id: Seq<char>)
    requires
        s.settings.split_view == s.split_view,
    ensures
        spec_handle_key(s, key, new_id).settings.split_view == spec_handle_key(s, key, new_id).split_view,
{
}

/// The edited id is set exactly while a title is being edited, and the id
/// to delete exactly while a deletion waits for confirmation.
pub open spec fn modes_consistent(s: AppView) -> bool {
    &&& (s.input_mode == InputMode::Editing) == (s.editing_task_id is Some)
    &&& (s.input_mode == InputMode::Deleting) == (s.deleting_task_id is Some)
}

/// Every key keeps the pending edit and the pending deletion in step with
/// the mode.
pub proof fn law_keys_keep_modes_consistent(s: AppView, key: Key, new_id: Seq<char>)
    requires
        modes_consistent(s),
    ensures
        modes_consistent(spec_handle_key(s, key, new_id)),
{
}

/// The text of a list of lines, one after the other.
pub open spec fn joined(lines: Seq<Seq<char>>) -> Seq<char>
    decreases lines.len(),
{
    if lines.len() == 0 {
        Seq::empty()
    } else {
        joined(lines.drop_last()) + lines.last()
    }
}

/// A line fits in `max_width` columns, or holds a single character that is
/// wider on its own.
pub open spec fn line_fits(line: Seq<char>, max_width: nat) -> bool {
    cols(line) <= max_width || line.len() == 1
}

proof fn lemma_wrap_state(text: Seq<char>, max_width: nat)
    ensures
        ({
            let st = wrap_state(text, max_width);
            &&& joined(st.0) + st.1 == text
            &&& st.2 == cols(st.1)
            &&& line_fits(st.1, max_width)
            &&& forall|i: int| 0 <= i < st.0.len() ==> (#[trigger] st.0[i]).len() > 0
                && line_fits(st.0[i], max_width)
        }),
    decreases text.len(),
{
    if text.len() > 0 {
        let prev = wrap_state(text.drop_last(), max_width);
        lemma_wrap_state(text.drop_last(), max_width);
        let c = text.last();
        let st = wrap_state(text, max_width);
        if prev.2 + col_width(c) > max_width && prev.1.len() > 0 {
            assert(st.0.drop_last() =~= prev.0);
            assert(joined(st.0) == joined(prev.0) + prev.1);
            assert(seq![c].drop_last() =~= Seq::<char>::empty());
            assert(seq![c].last() == c);
            assert(cols(Seq::<char>::empty()) == 0);
            assert(cols(seq![c]) == col_width(c));
            assert(seq![c] =~= Seq::<char>::empty().push(c));
            assert(text.drop_last().push(c) =~= text);
            assert(joined(st.0) + st.1 =~= text);
            assert forall|i: int| 0 <= i < st.0.len() implies (#[trigger] st.0[i]).len() > 0
                && line_fits(st.0[i], max_width) by {
                if i < prev.0.len() {
                    assert(st.0[i] == prev.0[i]);
                }
            }
        } else {
            assert(prev.1.push(c).drop_last() =~= prev.1);
            assert(prev.1.push(c).last() == c);
            assert(text.drop_last().push(c) =~= text);
            assert(joined(st.0) + st.1 =~= text);
            if prev.1.len() == 0 {
                assert(st.1.len() == 1);
            }
        }
    }
}

/// Wrapping loses and adds no character, and every line it makes is
/// non-empty (unless the text is) and fits in the width or is a single
/// character too wide on its own.
pub proof fn law_wrap_text(text: Seq<char>, max_width: nat)
    ensures
        joined(spec_wrap_text(text, max_width)) == text,
        spec_wrap_text(text, max_width).len() > 0,
        forall|i: int| 0 <= i < spec_wrap_text(text, max_width).len() ==> line_fits(
            #[trigger] spec_wrap_text(text, max_width)[i],
            max_width,
        ),
        text.len() > 0 ==> forall|i: int| 0 <= i < spec_wrap_text(text, max_width).len()
            ==> (#[trigger] spec_wrap_text(text, max_width)[i]).len() > 0,
{
    lemma_wrap_state(text, max_width);
    let st = wrap_state(text, max_width);
    let lines = spec_wrap_text(text, max_width);
    if st.1.len() > 0 {
        assert(st.0.push(st.1).drop_last() =~= st.0);
        assert forall|i: int| 0 <= i < lines.len() implies line_fits(#[trigger] lines[i], max_width)
            && (text.len() > 0 ==> lines[i].len() > 0) by {
            if i < st.0.len() {
                assert(lines[i] == st.0[i]);
            }
        }
    } else if st.0.len() == 0 {
        assert(joined(st.0) =~= Seq::<char>::empty());
        assert(text =~= Seq::<char>::empty());
        let e = seq![Seq::<char>::empty()];
        assert(e.drop_last() =~= Seq::<Seq<char>>::empty());
        assert(joined(e) =~= Seq::<char>::empty());
        assert(cols(Seq::<char>::empty()) == 0);
    } else {
        assert(joined(st.0) + st.1 =~= joined(st.0));
    }
}

/// Cutting a text to a width keeps the longest prefix that fits: what is
/// kept fits after the columns already taken, and one more character would
/// not.
pub proof fn law_fit_count_is_longest_fitting_prefix(s: Seq<char>, start: nat, max: nat)
    ensures
        fit_count(s, start, max) <= s.len(),
        fit_count(s, start, max) > 0 ==> start + cols(s.take(fit_count(s, start, max) as int)) <= max,
        fit_count(s, start, max) < s.len() ==> start + cols(
            s.take(fit_count(s, start, max) as int + 1),
        ) > max,
    decreases s.len(),
{
    if s.len() > 0 {
        let d = s.drop_last();
        law_fit_count_is_longest_fitting_prefix(d, start, max);
        let k = fit_count(d, start, max);
        assert(s.take(s.len() as int) =~= s);
        assert(d.take(k as int) =~= s.take(k as int));
        if k < d.len() {
            assert(d.take(k as int + 1) =~= s.take(k as int + 1));
        } else {
            assert(s.take(k as int + 1) =~= s);
        }
    }
}

/// The screen right after start keeps the pending edit and deletion in
/// step with the mode, and the split setting in step with the screen.
pub proof fn law_initial_state_is_consistent(tasks: Seq<TaskView>, settings: Settings)
    ensures
        modes_consistent(initial_state(tasks, settings)),
        initial_state(tasks, settings).settings.split_view == initial_state(tasks, settings).split_view,
{
}

/// How many tasks of `s` pass the test `r`.
pub open spec fn count(s: Seq<TaskView>, r: spec_fn(TaskView) -> bool) -> nat
    decreases s.len(),
{
    if s.len() == 0 {
        0
    } else {
        count(s.drop_last(), r) + if r(s.last()) {
            1nat
        } else {
            0nat
        }
    }
}

/// Both tests pass.
pub open spec fn both(a: spec_fn(TaskView) -> bool, b: spec_fn(TaskView) -> bool) -> spec_fn(TaskView) -> bool {
    |x: TaskView| a(x) && b(x)
}

/// The first test passes and the second fails.
pub open spec fn but_not(a: spec_fn(TaskView) -> bool, b: spec_fn(TaskView) -> bool) -> spec_fn(TaskView) -> bool {
    |x: TaskView| a(x) && !b(x)
}

/// No task of the list is its own parent.
pub open spec fn no_self_parent(tasks: Seq<TaskView>) -> bool {
    forall|i: int| 0 <= i < tasks.len() ==> (#[trigger] tasks[i]).parent_id != Some(tasks[i].id)
}

proof fn lemma_count_push(s: Seq<TaskView>, x: TaskView, r: spec_fn(TaskView) -> bool)
    ensures
        count(s.push(x), r) == count(s, r) + if r(x) {
            1nat
        } else {
            0nat
        },
{
    assert(s.push(x).drop_last() =~= s);
}

proof fn lemma_filter_len_is_count(s: Seq<TaskView>, r: spec_fn(TaskView) -> bool)
    ensures
        s.filter(r).len() == count(s, r),
    decreases s.len(),
{
    reveal_with_fuel(Seq::<_>::filter, 1);
    if s.len() > 0 {
        lemma_filter_len_is_count(s.drop_last(), r);
    }
}

proof fn lemma_count_of_filter(s: Seq<TaskView>, q: spec_fn(TaskView) -> bool, r: spec_fn(TaskView) -> bool)
    ensures
        count(s.filter(q), r) == count(s, both(q, r)),
    decreases s.len(),
{
    reveal_with_fuel(Seq::<_>::filter, 1);
    if s.len() > 0 {
        lemma_count_of_filter(s.drop_last(), q, r);
        if q(s.last()) {
            lemma_count_push(s.drop_last().filter(q), s.last(), r);
        }
    }
}

proof fn lemma_count_split(s: Seq<TaskView>, a: spec_fn(TaskView) -> bool, b: spec_fn(TaskView) -> bool)
    ensures
        count(s, a) == count(s, both(b, a)) + count(s, but_not(a, b)),
    decreases s.len(),
{
    if s.len() > 0 {
        lemma_count_split(s.drop_last(), a, b);
    }
}

proof fn lemma_count_agree(s: Seq<TaskView>, a: spec_fn(TaskView) -> bool, b: spec_fn(TaskView) -> bool)
    requires
        forall|i: int| 0 <= i < s.len() ==> a(#[trigger] s[i]) == b(s[i]),
    ensures
        count(s, a) == count(s, b),
    decreases s.len(),
{
    if s.len() > 0 {
        let d = s.drop_last();
        assert forall|i: int| 0 <= i < d.len() implies a(#[trigger] d[i]) == b(d[i]) by {
            assert(d[i] == s[i]);
        }
        lemma_count_agree(d, a, b);
        assert(a(s[s.len() - 1]) == b(s[s.len() - 1]));
    }
}

proof fn lemma_count_one(s: Seq<TaskView>, r: spec_fn(TaskView) -> bool, k: int)
    requires
        0 <= k < s.len(),
        r(s[k]),
        forall|j: int| 0 <= j < s.len() && j != k ==> !r(#[trigger] s[j]),
    ensures
        count(s, r) == 1,
    decreases s.len(),
{
    let d = s.drop_last();
    if k == s.len() - 1 {
        lemma_count_none(d, r);
    } else {
        assert forall|j: int| 0 <= j < d.len() && j != k implies !r(#[trigger] d[j]) by {
            assert(d[j] == s[j]);
        }
        assert(d[k] == s[k]);
        lemma_count_one(d, r, k);
        assert(!r(s[s.len() - 1]));
    }
}

proof fn lemma_count_none(s: Seq<TaskView>, r: spec_fn(TaskView) -> bool)
    requires
        forall|j: int| 0 <= j < s.len() ==> !r(#[trigger] s[j]),
    ensures
        count(s, r) == 0,
    decreases s.len(),
{
    if s.len() > 0 {
        let d = s.drop_last();
        assert forall|j: int| 0 <= j < d.len() implies !r(#[trigger] d[j]) by {
            assert(d[j] == s[j]);
        }
        lemma_count_none(d, r);
        assert(!r(s[s.len() - 1]));
    }
}

/// Deleting the selected task of the list pane (asking, then confirming)
/// takes exactly one entry out of the list and leaves the cursor on an
/// entry, or at the top of an empty list, provided no two tasks share an id
/// and no task of the list is its own parent.
pub proof fn law_delete_shortens_the_list_by_one(s: AppView)
    requires
        !right_pane_active(s),
        s.selected_index < current_tasks(s).len(),
        unique_ids(s.tasks),
        no_self_parent(current_tasks(s)),
    ensures
        ({
            let after = spec_confirm_delete(spec_start_deleting(s));
            &&& current_tasks(after).len() + 1 == current_tasks(s).len()
            &&& (after.selected_index < current_tasks(after).len() || (current_tasks(after).len()
                == 0 && after.selected_index == 0))
        }),
{
    broadcast use vstd::seq_lib::group_filter_ensures;

    let tasks = s.tasks;
    let cp = s.current_parent;
    let cur = current_tasks(s);
    let t = cur[s.selected_index as int];
    let d = t.id;
    let p0 = level_pred(tasks, cp, s.filter_mode);
    let q = survives_delete(d);
    assert(p0(t));
    assert(tasks.contains(t)) by {
        assert(cur.contains(t)) by {
            assert(cur[s.selected_index as int] == t);
        }
        tasks.lemma_filter_contains_rev(p0, t);
    }
    let m = choose|m: int| 0 <= m < tasks.len() && tasks[m] == t;
    let s1 = spec_start_deleting(s);
    assert(target_task(s) == Some(t));
    let after = spec_confirm_delete(s1);
    let kept = tasks.filter(q);
    assert(after.tasks == kept);
    let p1 = level_pred(kept, cp, s.filter_mode);
    assert(current_tasks(after) == kept.filter(p1));

    // The surviving tasks are shown exactly as before.
    assert forall|i: int| 0 <= i < tasks.len() implies (#[trigger] both(q, p1)(tasks[i])) == both(q, p0)(tasks[i]) by {
        let x = tasks[i];
        if q(x) && x.parent_id == cp && s.filter_mode == FilterMode::Completed {
            if crate::app::spec_has_completed_subtasks(tasks, x.id) {
                let j = choose|j: int| 0 <= j < tasks.len() && tasks[j].parent_id == Some(x.id)
                    && #[trigger] tasks[j].completed;
                let y = tasks[j];
                if y.id == d {
                    if j != m {
                        assert(tasks[j].id != tasks[m].id);
                    }
                    assert(x.parent_id == Some(x.id));
                    assert(p0(x));
                    assert(cur.contains(tasks[i]));
                    let c = choose|c: int| 0 <= c < cur.len() && cur[c] == x;
                    assert(cur[c].parent_id != Some(cur[c].id));
                }
                assert(q(y));
                assert(kept.contains(y));
                let k = choose|k: int| 0 <= k < kept.len() && kept[k] == y;
                assert(kept[k].completed);
            }
            if crate::app::spec_has_completed_subtasks(kept, x.id) {
                let k = choose|k: int| 0 <= k < kept.len() && kept[k].parent_id == Some(x.id)
                    && #[trigger] kept[k].completed;
                assert(kept.contains(kept[k]));
                tasks.lemma_filter_contains_rev(q, kept[k]);
                let j = choose|j: int| 0 <= j < tasks.len() && tasks[j] == kept[k];
                assert(tasks[j].completed);
            }
        }
    }
    lemma_filter_len_is_count(kept, p1);
    lemma_count_of_filter(tasks, q, p1);
    lemma_count_agree(tasks, both(q, p1), both(q, p0));
    lemma_filter_len_is_count(tasks, p0);
    lemma_count_split(tasks, p0, q);
    // Exactly one task of the list goes: the deleted one.
    assert forall|j: int| 0 <= j < tasks.len() && j != m implies !(#[trigger] but_not(p0, q)(tasks[j])) by {
        let y = tasks[j];
        if p0(y) && !q(y) {
            if y.id == d {
                assert(tasks[j].id != tasks[m].id);
            } else {
                assert(y.parent_id == Some(d));
                assert(tasks[m].parent_id == Some(tasks[m].id));
                assert(cur[s.selected_index as int].parent_id != Some(cur[s.selected_index as int].id));
            }
        }
    }
    lemma_count_one(tasks, but_not(p0, q), m);
}

/// A task with id `id` somewhere in the list means a first one exists.
proof fn lemma_first_with_id_exists(tasks: Seq<TaskView>, id: Seq<char>, j: int)
    requires
        0 <= j < tasks.len(),
        tasks[j].id == id,
    ensures
        first_with_id(tasks, id) is Some,
        tasks[first_with_id(tasks, id)->0].id == id,
        0 <= first_with_id(tasks, id)->0 < tasks.len(),
    decreases j,
{
    if forall|i: int| 0 <= i < j ==> #[trigger] tasks[i].id != id {
        assert(is_first_with_id(tasks, id, j));
        lemma_first_with_id_found(tasks, id, j);
    } else {
        let i = choose|i: int| 0 <= i < j && #[trigger] tasks[i].id != id == false;
        lemma_first_with_id_exists(tasks, id, i);
    }
}

/// The sub-task pane of the task with id `pid` shows exactly its direct
/// sub-tasks that pass the pane's filter (unfinished ones, completed ones,
/// or all), in task order: each shown entry is such a sub-task, and every
/// such sub-task is shown.
pub proof fn law_subtask_pane_shows(tasks: Seq<TaskView>, pid: Seq<char>, mode: FilterMode)
    ensures
        forall|i: int| 0 <= i < filtered_subtasks(tasks, pid, mode).len() ==> {
            let t = #[trigger] filtered_subtasks(tasks, pid, mode)[i];
            &&& t.parent_id == Some(pid)
            &&& (mode == FilterMode::Unfinished ==> !t.completed)
            &&& (mode == FilterMode::Completed ==> t.completed)
            &&& tasks.contains(t)
        },
        forall|j: int| 0 <= j < tasks.len() && tasks[j].parent_id == Some(pid) && (mode
            == FilterMode::Unfinished ==> !tasks[j].completed) && (mode == FilterMode::Completed
            ==> tasks[j].completed) ==> filtered_subtasks(tasks, pid, mode).contains(#[trigger] tasks[j]),
{
    broadcast use vstd::seq_lib::group_filter_ensures;

    let cp = child_pred(pid);
    let sp = subtask_pred(mode);
    let subs = subtasks(tasks, pid);
    let shown = filtered_subtasks(tasks, pid, mode);
    assert forall|i: int| 0 <= i < shown.len() implies {
        let t = #[trigger] shown[i];
        &&& t.parent_id == Some(pid)
        &&& (mode == FilterMode::Unfinished ==> !t.completed)
        &&& (mode == FilterMode::Completed ==> t.completed)
        &&& tasks.contains(t)
    } by {
        let t = shown[i];
        assert(sp(t));
        assert(shown.contains(t));
        subs.lemma_filter_contains_rev(sp, t);
        let k = choose|k: int| 0 <= k < subs.len() && subs[k] == t;
        assert(cp(subs[k]));
        tasks.lemma_filter_contains_rev(cp, t);
    }
    assert forall|j: int| 0 <= j < tasks.len() && tasks[j].parent_id == Some(pid) && (mode
        == FilterMode::Unfinished ==> !tasks[j].completed) && (mode == FilterMode::Completed
        ==> tasks[j].completed) implies shown.contains(#[trigger] tasks[j]) by {
        assert(cp(tasks[j]));
        assert(subs.contains(tasks[j]));
        let k = choose|k: int| 0 <= k < subs.len() && subs[k] == tasks[j];
        assert(sp(subs[k]));
    }
}

/// The entry under the cursor of the active pane: in the list pane the
/// shown task at the list cursor; in the sub-task pane the shown sub-task
/// (of the task at the list cursor) at the sub-task cursor.
pub open spec fn entry_under_cursor(s: AppView) -> Option<TaskView> {
    let cur = current_tasks(s);
    if s.selected_index < cur.len() {
        let p = cur[s.selected_index as int];
        if !right_pane_active(s) {
            Some(p)
        } else {
            let subs = filtered_subtasks(s.tasks, p.id, s.filter_mode);
            if s.right_pane_selected_index < subs.len() {
                Some(subs[s.right_pane_selected_index as int])
            } else {
                None
            }
        }
    } else {
        None
    }
}

/// The entry under the cursor is one of the tasks.
proof fn lemma_entry_is_a_task(s: AppView)
    requires
        entry_under_cursor(s) is Some,
    ensures
        s.tasks.contains(entry_under_cursor(s)->0),
{
    broadcast use vstd::seq_lib::group_filter_ensures;

    let cur = current_tasks(s);
    let p = cur[s.selected_index as int];
    if !right_pane_active(s) {
        assert(cur.contains(p));
        s.tasks.lemma_filter_contains_rev(level_pred(s.tasks, s.current_parent, s.filter_mode), p);
    } else {
        law_subtask_pane_shows(s.tasks, p.id, s.filter_mode);
        let subs = filtered_subtasks(s.tasks, p.id, s.filter_mode);
        assert(s.tasks.contains(subs[s.right_pane_selected_index as int]));
    }
}

/// Editing, deleting and completing act on the entry under the cursor of
/// the active pane, and on nothing else: editing puts that entry's id and
/// title into the input line, deleting marks that entry's id, and
/// completing flips the completion of the first task with that id while
/// every other task, and the rest of the screen, stays as it was. Without an
/// entry under the cursor the three change nothing.
pub proof fn law_actions_act_on_the_entry_under_the_cursor(s: AppView)
    ensures
        match entry_under_cursor(s) {
            Some(t) => {
                &&& spec_start_editing(s) == (AppView {
                    editing_task_id: Some(t.id),
                    input_buffer: t.title,
                    input_mode: InputMode::Editing,
                    ..s
                })
                &&& spec_start_deleting(s) == (AppView {
                    deleting_task_id: Some(t.id),
                    input_mode: InputMode::Deleting,
                    ..s
                })
                &&& first_with_id(s.tasks, t.id) is Some
                &&& ({
                    let k = first_with_id(s.tasks, t.id)->0;
                    let after = spec_toggle_complete(s);
                    &&& 0 <= k < s.tasks.len()
                    &&& s.tasks[k].id == t.id
                    &&& after == (AppView { tasks: after.tasks, ..s })
                    &&& after.tasks.len() == s.tasks.len()
                    &&& after.tasks[k] == (TaskView { completed: !s.tasks[k].completed, ..s.tasks[k] })
                    &&& forall|i: int| 0 <= i < s.tasks.len() && i != k ==> #[trigger] after.tasks[i]
                        == s.tasks[i]
                })
            },
            None => {
                &&& spec_start_editing(s) == s
                &&& spec_start_deleting(s) == s
                &&& spec_toggle_complete(s) == s
            },
        },
{
    assert(target_task(s) == entry_under_cursor(s));
    if let Some(t) = entry_under_cursor(s) {
        lemma_entry_is_a_task(s);
        let j = choose|j: int| 0 <= j < s.tasks.len() && s.tasks[j] == t;
        lemma_first_with_id_exists(s.tasks, t.id, j);
        assert(toggle_writes(s));
    }
}

/// With the sub-task pane active, a new task becomes a sub-task of the task
/// under the list cursor and is the last of its sub-tasks (and, unless only
/// completed tasks are shown, the last entry of the sub-task pane); with no
/// task under the list cursor it becomes a top-level task. With the list
/// pane active it goes into the list that is open.
pub proof fn law_new_task_parent(s: AppView, new_id: Seq<char>)
    requires
        !spec_is_blank(s.input_buffer),
    ensures
        ({
            let after = spec_add_task(s, new_id);
            let cur = current_tasks(s);
            &&& after.tasks.len() == s.tasks.len() + 1
            &&& after.tasks.drop_last() == s.tasks
            &&& after.tasks.last().title == s.input_buffer
            &&& !after.tasks.last().completed
            &&& (!right_pane_active(s) ==> after.tasks.last().parent_id == s.current_parent)
            &&& (right_pane_active(s) && s.selected_index >= cur.len()
                ==> after.tasks.last().parent_id is None)
            &&& (right_pane_active(s) && s.selected_index < cur.len() ==> {
                let pid = cur[s.selected_index as int].id;
                &&& after.tasks.last().parent_id == Some(pid)
                &&& subtasks(after.tasks, pid).last() == after.tasks.last()
                &&& subtasks(after.tasks, pid).len() == subtasks(s.tasks, pid).len() + 1
                &&& (s.filter_mode != FilterMode::Completed ==> filtered_subtasks(
                    after.tasks,
                    pid,
                    s.filter_mode,
                ).last() == after.tasks.last())
            })
        }),
{
    let after = spec_add_task(s, new_id);
    assert(after.tasks.drop_last() =~= s.tasks);
    reveal_with_fuel(Seq::<_>::filter, 1);
    let cur = current_tasks(s);
    if right_pane_active(s) && s.selected_index < cur.len() {
        let pid = cur[s.selected_index as int].id;
        let subs = subtasks(after.tasks, pid);
        assert(subs == subtasks(s.tasks, pid).push(after.tasks.last()));
        assert(subs.drop_last() =~= subtasks(s.tasks, pid));
        if s.filter_mode != FilterMode::Completed {
            assert(subtask_pred(s.filter_mode)(subs.last()));
        }
    }
}

/// A move down in the sub-task pane goes one entry down and never leaves
/// the shown sub-tasks of the task under the list cursor.
pub proof fn law_move_down_stays_in_subtask_pane(s: AppView)
    requires
        right_pane_active(s),
        s.tasks.len() <= usize::MAX,
    ensures
        ({
            let d = spec_move_down(s);
            let cur = current_tasks(s);
            &&& d == (AppView { right_pane_selected_index: d.right_pane_selected_index, ..s })
            &&& d.right_pane_selected_index != s.right_pane_selected_index ==> {
                &&& s.selected_index < cur.len()
                &&& d.right_pane_selected_index == s.right_pane_selected_index + 1
                &&& d.right_pane_selected_index < filtered_subtasks(
                    s.tasks,
                    cur[s.selected_index as int].id,
                    s.filter_mode,
                ).len()
            }
        }),
{
    broadcast use vstd::seq_lib::group_filter_ensures;

    if let Some(p) = selected_task(s) {
        assert(subtasks(s.tasks, p.id).len() <= s.tasks.len());
        assert(filtered_subtasks(s.tasks, p.id, s.filter_mode).len() <= subtasks(s.tasks, p.id).len());
    }
}

} // verus!
