//! The state of the to-do screen and the operations on it: which tasks the
//! list shows, adding, editing, deleting and completing tasks, and moving
//! through the list and its sub-lists.

use vstd::prelude::*;

use crate::model::{
    opt_str_clone, opt_str_eq, opt_view, hyphenated_uuid_shape, FilterMode, InputMode, Pane,
    Settings, Task, TermColor,
};
use crate::text::{is_blank, spec_is_blank};

verus! {

/// The contents of a task.
pub struct TaskView {
    pub id: Seq<char>,
    pub title: Seq<char>,
    pub completed: bool,
    pub parent_id: Option<Seq<char>>,
}

impl View for Task {
    type V = TaskView;

    open spec fn view(&self) -> TaskView {
        TaskView {
            id: self.id@,
            title: self.title@,
            completed: self.completed,
            parent_id: opt_view(self.parent_id),
        }
    }
}

/// The contents of a list of tasks.
pub open spec fn tasks_view(v: Seq<Task>) -> Seq<TaskView> {
    v.map_values(|t: Task| t@)
}

/// The contents of a list of borrowed tasks.
pub open spec fn task_refs_view(v: Seq<&Task>) -> Seq<TaskView> {
    v.map_values(|t: &Task| t@)
}

/// The whole state of the screen.
pub struct AppView {
    pub tasks: Seq<TaskView>,
    pub selected_index: usize,
    pub right_pane_selected_index: usize,
    pub current_parent: Option<Seq<char>>,
    pub input_mode: InputMode,
    pub input_buffer: Seq<char>,
    pub editing_task_id: Option<Seq<char>>,
    pub deleting_task_id: Option<Seq<char>>,
    pub filter_mode: FilterMode,
    pub split_view: bool,
    pub active_pane: Pane,
    pub settings: Settings,
}

/// The to-do screen: the tasks, what is selected, which sub-list is open,
/// what the keyboard is doing, and the settings.
pub struct App {
    pub tasks: Vec<Task>,
    pub selected_index: usize,
    pub right_pane_selected_index: usize,
    pub current_parent: Option<String>,
    pub input_mode: InputMode,
    pub input_buffer: String,
    pub editing_task_id: Option<String>,
    pub deleting_task_id: Option<String>,
    pub filter_mode: FilterMode,
    pub split_view: bool,
    pub active_pane: Pane,
    pub settings: Settings,
}

impl View for App {
    type V = AppView;

    open spec fn view(&self) -> AppView {
        AppView {
            tasks: tasks_view(self.tasks@),
            selected_index: self.selected_index,
            right_pane_selected_index: self.right_pane_selected_index,
            current_parent: opt_view(self.current_parent),
            input_mode: self.input_mode,
            input_buffer: self.input_buffer@,
            editing_task_id: opt_view(self.editing_task_id),
            deleting_task_id: opt_view(self.deleting_task_id),
            filter_mode: self.filter_mode,
            split_view: self.split_view,
            active_pane: self.active_pane,
            settings: self.settings,
        }
    }
}

// ---------------------------------------------------------------------------
// What the screen shows
// ---------------------------------------------------------------------------

/// `t` is a direct sub-task of the task with id `pid`.
pub open spec fn child_pred(pid: Seq<char>) -> spec_fn(TaskView) -> bool {
    |t: TaskView| t.parent_id == Some(pid)
}

/// Some direct sub-task of the task with id `pid` is completed.
pub open spec fn spec_has_completed_subtasks(tasks: Seq<TaskView>, pid: Seq<char>) -> bool {
    exists|i: int| 0 <= i < tasks.len() && tasks[i].parent_id == Some(pid) && #[trigger] tasks[i].completed
}

/// Whether the filter lets `t` into the list: unfinished tasks, completed
/// tasks (and unfinished ones with a completed sub-task), or all.
pub open spec fn shown_by_filter(tasks: Seq<TaskView>, mode: FilterMode, t: TaskView) -> bool {
    match mode {
        FilterMode::Unfinished => !t.completed,
        FilterMode::Completed => t.completed || spec_has_completed_subtasks(tasks, t.id),
        FilterMode::All => true,
    }
}

/// The tasks of the list whose parent is `parent` and that the filter shows.
pub open spec fn level_pred(tasks: Seq<TaskView>, parent: Option<Seq<char>>, mode: FilterMode) -> spec_fn(TaskView) -> bool {
    |t: TaskView| t.parent_id == parent && shown_by_filter(tasks, mode, t)
}

/// The list the screen shows (the left pane when split), in task order.
pub open spec fn current_tasks(s: AppView) -> Seq<TaskView> {
    s.tasks.filter(level_pred(s.tasks, s.current_parent, s.filter_mode))
}

/// The direct sub-tasks of the task with id `pid`, in task order.
pub open spec fn subtasks(tasks: Seq<TaskView>, pid: Seq<char>) -> Seq<TaskView> {
    tasks.filter(child_pred(pid))
}

/// Whether the filter lets a sub-task into the sub-task pane: there the
/// completed filter shows completed sub-tasks only.
pub open spec fn subtask_pred(mode: FilterMode) -> spec_fn(TaskView) -> bool {
    |t: TaskView| match mode {
        FilterMode::Unfinished => !t.completed,
        FilterMode::Completed => t.completed,
        FilterMode::All => true,
    }
}

/// The direct sub-tasks of `pid` that the filter shows, in task order.
pub open spec fn filtered_subtasks(tasks: Seq<TaskView>, pid: Seq<char>, mode: FilterMode) -> Seq<TaskView> {
    subtasks(tasks, pid).filter(subtask_pred(mode))
}

/// The screen is split and the keyboard works on the sub-task pane.
pub open spec fn right_pane_active(s: AppView) -> bool {
    s.split_view && s.active_pane == Pane::Right
}

/// The task under the cursor of the list, if the cursor is on one.
pub open spec fn selected_task(s: AppView) -> Option<TaskView> {
    let cur = current_tasks(s);
    if s.selected_index < cur.len() {
        Some(cur[s.selected_index as int])
    } else {
        None
    }
}

/// The sub-task under the cursor of the sub-task pane, if there is one.
pub open spec fn selected_subtask(s: AppView) -> Option<TaskView> {
    match selected_task(s) {
        Some(p) => {
            let subs = filtered_subtasks(s.tasks, p.id, s.filter_mode);
            if s.right_pane_selected_index < subs.len() {
                Some(subs[s.right_pane_selected_index as int])
            } else {
                None
            }
        },
        None => None,
    }
}

/// The task that editing, deleting and completing act on: the selected
/// sub-task when the sub-task pane is active, else the selected task.
pub open spec fn target_task(s: AppView) -> Option<TaskView> {
    if right_pane_active(s) {
        selected_subtask(s)
    } else {
        selected_task(s)
    }
}

/// The parent a new task gets: the task selected on the left when the
/// sub-task pane is active, else the list that is open.
pub open spec fn parent_for_new_task(s: AppView) -> Option<Seq<char>> {
    if right_pane_active(s) {
        match selected_task(s) {
            Some(p) => Some(p.id),
            None => None,
        }
    } else {
        s.current_parent
    }
}

/// `k` is the first position of a task with id `id`.
pub open spec fn is_first_with_id(tasks: Seq<TaskView>, id: Seq<char>, k: int) -> bool {
    &&& 0 <= k < tasks.len()
    &&& tasks[k].id == id
    &&& forall|j: int| 0 <= j < k ==> #[trigger] tasks[j].id != id
}

/// The first position of a task with id `id`, if any task has it.
pub open spec fn first_with_id(tasks: Seq<TaskView>, id: Seq<char>) -> Option<int> {
    if exists|k: int| is_first_with_id(tasks, id, k) {
        Some(choose|k: int| is_first_with_id(tasks, id, k))
    } else {
        None
    }
}

/// The screen right after start: no list opened, cursor on the first task,
/// unfinished tasks shown, left pane active, split as the settings say.
pub open spec fn initial_state(tasks: Seq<TaskView>, settings: Settings) -> AppView {
    AppView {
        tasks,
        selected_index: 0,
        right_pane_selected_index: 0,
        current_parent: None,
        input_mode: InputMode::Normal,
        input_buffer: Seq::empty(),
        editing_task_id: None,
        deleting_task_id: None,
        filter_mode: FilterMode::Unfinished,
        split_view: settings.split_view,
        active_pane: Pane::Left,
        settings,
    }
}

// ---------------------------------------------------------------------------
// What the operations do
// ---------------------------------------------------------------------------

/// Leaves the input line: the buffer is emptied and the keyboard browses
/// the list again.
pub open spec fn leave_input(s: AppView) -> AppView {
    AppView { input_buffer: Seq::empty(), input_mode: InputMode::Normal, ..s }
}

/// Adding the typed text as a new task with id `new_id`: a blank text adds
/// nothing; otherwise an unfinished task with that title goes to the end of
/// the list, under `parent_for_new_task`. Either way the input line is left.
pub open spec fn spec_add_task(s: AppView, new_id: Seq<char>) -> AppView {
    if spec_is_blank(s.input_buffer) {
        leave_input(s)
    } else {
        leave_input(AppView {
            tasks: s.tasks.push(TaskView {
                id: new_id,
                title: s.input_buffer,
                completed: false,
                parent_id: parent_for_new_task(s),
            }),
            ..s
        })
    }
}

/// The edit is written: a task is being edited, the text is not blank and a
/// task with that id exists.
pub open spec fn edit_writes(s: AppView) -> bool {
    &&& s.editing_task_id is Some
    &&& !spec_is_blank(s.input_buffer)
    &&& first_with_id(s.tasks, s.editing_task_id->0) is Some
}

/// Finishing an edit: when `edit_writes`, the first task with the edited id
/// gets the typed text as its title. Either way the input line is left and
/// no task is being edited.
pub open spec fn spec_edit_task(s: AppView) -> AppView {
    let tasks = if edit_writes(s) {
        let k = first_with_id(s.tasks, s.editing_task_id->0)->0;
        s.tasks.update(k, TaskView { title: s.input_buffer, ..s.tasks[k] })
    } else {
        s.tasks
    };
    AppView { tasks, editing_task_id: None, ..leave_input(s) }
}

/// Starting an edit of the target task: its title goes into the input line.
/// Without a target nothing changes.
pub open spec fn spec_start_editing(s: AppView) -> AppView {
    match target_task(s) {
        Some(t) => AppView {
            editing_task_id: Some(t.id),
            input_buffer: t.title,
            input_mode: InputMode::Editing,
            ..s
        },
        None => s,
    }
}

/// Asking to delete the target task. Without a target nothing changes.
pub open spec fn spec_start_deleting(s: AppView) -> AppView {
    match target_task(s) {
        Some(t) => AppView { deleting_task_id: Some(t.id), input_mode: InputMode::Deleting, ..s },
        None => s,
    }
}

/// The tasks that survive deleting the task with id `id`: all but that task
/// and its direct sub-tasks.
pub open spec fn survives_delete(id: Seq<char>) -> spec_fn(TaskView) -> bool {
    |t: TaskView| t.id != id && t.parent_id != Some(id)
}

/// Confirming a deletion: the task and its direct sub-tasks go, the order of
/// the others stays, and the cursor of the active list steps back by one if
/// it is now past the end of its list. Either way no deletion is pending and
/// the keyboard browses the list again.
pub open spec fn spec_confirm_delete(s: AppView) -> AppView {
    match s.deleting_task_id {
        Some(id) => {
            let s1 = AppView {
                tasks: s.tasks.filter(survives_delete(id)),
                deleting_task_id: None,
                input_mode: InputMode::Normal,
                ..s
            };
            if right_pane_active(s) {
                match selected_task(s1) {
                    Some(p) => {
                        let subs = filtered_subtasks(s1.tasks, p.id, s1.filter_mode);
                        if s.right_pane_selected_index >= subs.len() && s.right_pane_selected_index > 0 {
                            AppView {
                                right_pane_selected_index: (s.right_pane_selected_index - 1) as usize,
                                ..s1
                            }
                        } else {
                            s1
                        }
                    },
                    None => s1,
                }
            } else if s.selected_index >= current_tasks(s1).len() && s.selected_index > 0 {
                AppView { selected_index: (s.selected_index - 1) as usize, ..s1 }
            } else {
                s1
            }
        },
        None => AppView { deleting_task_id: None, input_mode: InputMode::Normal, ..s },
    }
}

/// Cancelling a deletion.
pub open spec fn spec_cancel_delete(s: AppView) -> AppView {
    AppView { deleting_task_id: None, input_mode: InputMode::Normal, ..s }
}

/// The task with its completion flipped.
pub open spec fn toggled(t: TaskView) -> TaskView {
    TaskView { completed: !t.completed, ..t }
}

/// Completing is written: there is a target task and a task with its id.
pub open spec fn toggle_writes(s: AppView) -> bool {
    match target_task(s) {
        Some(t) => first_with_id(s.tasks, t.id) is Some,
        None => false,
    }
}

/// Flipping the completion of the first task with the target's id.
pub open spec fn spec_toggle_complete(s: AppView) -> AppView {
    if toggle_writes(s) {
        let k = first_with_id(s.tasks, target_task(s)->0.id)->0;
        AppView { tasks: s.tasks.update(k, toggled(s.tasks[k])), ..s }
    } else {
        s
    }
}

/// Moving the cursor of the active list up by one, if it is not at the top.
/// Moving in the list resets the sub-task cursor when the screen is split.
pub open spec fn spec_move_up(s: AppView) -> AppView {
    if right_pane_active(s) {
        if s.right_pane_selected_index > 0 {
            AppView { right_pane_selected_index: (s.right_pane_selected_index - 1) as usize, ..s }
        } else {
            s
        }
    } else if s.selected_index > 0 {
        AppView {
            selected_index: (s.selected_index - 1) as usize,
            right_pane_selected_index: if s.split_view { 0 } else { s.right_pane_selected_index },
            ..s
        }
    } else {
        s
    }
}

/// Moving the cursor of the active list down by one, if a next entry exists.
/// Moving in the list resets the sub-task cursor when the screen is split.
pub open spec fn spec_move_down(s: AppView) -> AppView {
    if right_pane_active(s) {
        match selected_task(s) {
            Some(p) => {
                let subs = filtered_subtasks(s.tasks, p.id, s.filter_mode);
                if s.right_pane_selected_index + 1 < subs.len() {
                    AppView { right_pane_selected_index: (s.right_pane_selected_index + 1) as usize, ..s }
                } else {
                    s
                }
            },
            None => s,
        }
    } else if s.selected_index + 1 < current_tasks(s).len() {
        AppView {
            selected_index: (s.selected_index + 1) as usize,
            right_pane_selected_index: if s.split_view { 0 } else { s.right_pane_selected_index },
            ..s
        }
    } else {
        s
    }
}

/// Opening the selected task: its sub-list becomes the list, or, on a split
/// screen, the sub-task pane becomes active with its cursor at the top.
pub open spec fn spec_enter_subtask(s: AppView) -> AppView {
    match selected_task(s) {
        Some(t) => if s.split_view {
            AppView { active_pane: Pane::Right, right_pane_selected_index: 0, ..s }
        } else {
            AppView { current_parent: Some(t.id), selected_index: 0, ..s }
        },
        None => s,
    }
}

/// Going back: on a split screen the list pane becomes active; otherwise the
/// list of the open task's parent is opened (the top level when the open
/// task is gone), with the cursor at the top.
pub open spec fn spec_back_to_parent(s: AppView) -> AppView {
    if s.split_view {
        AppView { active_pane: Pane::Left, ..s }
    } else {
        match s.current_parent {
            Some(pid) => match first_with_id(s.tasks, pid) {
                Some(k) => AppView { current_parent: s.tasks[k].parent_id, selected_index: 0, ..s },
                None => AppView { current_parent: None, selected_index: 0, ..s },
            },
            None => s,
        }
    }
}

// ---------------------------------------------------------------------------
// Lemmas on filtering and searching
// ---------------------------------------------------------------------------

/// Filtering one more element of a prefix.
pub proof fn lemma_filter_take_step(s: Seq<TaskView>, p: spec_fn(TaskView) -> bool, i: int)
    requires
        0 <= i < s.len(),
    ensures
        s.take(i + 1).filter(p) == (if p(s[i]) {
            s.take(i).filter(p).push(s[i])
        } else {
            s.take(i).filter(p)
        }),
{
    reveal_with_fuel(Seq::<_>::filter, 1);
    assert(s.take(i + 1).drop_last() =~= s.take(i));
}

/// A search that found position `k` is what `first_with_id` names.
pub proof fn lemma_first_with_id_found(tasks: Seq<TaskView>, id: Seq<char>, k: int)
    requires
        is_first_with_id(tasks, id, k),
    ensures
        first_with_id(tasks, id) == Some(k),
{
    let c = choose|c: int| is_first_with_id(tasks, id, c);
    assert(is_first_with_id(tasks, id, c));
    if c < k {
        assert(tasks[c].id != id);
    } else if k < c {
        assert(tasks[k].id != id);
    }
}

/// A search that found nothing is what `first_with_id` names.
pub proof fn lemma_first_with_id_absent(tasks: Seq<TaskView>, id: Seq<char>)
    requires
        forall|j: int| 0 <= j < tasks.len() ==> #[trigger] tasks[j].id != id,
    ensures
        first_with_id(tasks, id) is None,
{
    if exists|k: int| is_first_with_id(tasks, id, k) {
        let k = choose|k: int| is_first_with_id(tasks, id, k);
        assert(tasks[k].id != id);
    }
}

impl App {
    /// A screen over `tasks` and `settings`, as it looks right after start.
    pub fn new(tasks: Vec<Task>, settings: Settings) -> (res: Self)
        ensures
            res@ == initial_state(tasks_view(tasks@), settings),
    {
        let split_view = settings.split_view;
        App {
            tasks,
            selected_index: 0,
            right_pane_selected_index: 0,
            current_parent: None,
            input_mode: InputMode::Normal,
            input_buffer: String::new(),
            editing_task_id: None,
            deleting_task_id: None,
            filter_mode: FilterMode::Unfinished,
            split_view,
            active_pane: Pane::Left,
            settings,
        }
    }

    /// The first position of a task with id `id`.
    pub fn find_task(&self, id: &String) -> (res: Option<usize>)
        ensures
            match res {
                Some(k) => first_with_id(self@.tasks, id@) == Some(k as int),
                None => first_with_id(self@.tasks, id@) is None,
            },
    {
        let n = self.tasks.len();
        let ghost tv = self@.tasks;
        for i in 0..n
            invariant
                n == self.tasks@.len(),
                tv == self@.tasks,
                forall|j: int| 0 <= j < i ==> #[trigger] tv[j].id != id@,
        {
            if self.tasks[i].id.eq(id) {
                proof {
                    lemma_first_with_id_found(tv, id@, i as int);
                }
                return Some(i);
            }
        }
        proof {
            lemma_first_with_id_absent(tv, id@);
        }
        None
    }

    /// Whether some direct sub-task of the task with id `parent_id` is
    /// completed.
    pub fn has_completed_subtasks(&self, parent_id: &str) -> (res: bool)
        ensures
            res == spec_has_completed_subtasks(self@.tasks, parent_id@),
    {
        let pid: String = parent_id.to_owned();
        let n = self.tasks.len();
        let ghost tv = self@.tasks;
        for i in 0..n
            invariant
                n == self.tasks@.len(),
                tv == self@.tasks,
                pid@ == parent_id@,
                forall|j: int| 0 <= j < i ==> !(#[trigger] tv[j].parent_id == Some(pid@) && tv[j].completed),
        {
            let t = &self.tasks[i];
            let is_child = match &t.parent_id {
                Some(p) => p.eq(&pid),
                None => false,
            };
            if is_child && t.completed {
                assert(tv[i as int].parent_id == Some(pid@) && tv[i as int].completed);
                return true;
            }
        }
        false
    }

    /// The list the screen shows (the left pane when split): the tasks of the
    /// open list that the filter lets through, in task order. Under the
    /// completed filter an unfinished task with a completed sub-task is shown
    /// too.
    pub fn get_current_tasks(&self) -> (res: Vec<&Task>)
        ensures
            task_refs_view(res@) == current_tasks(self@),
    {
        let mut res: Vec<&Task> = Vec::new();
        let n = self.tasks.len();
        let ghost tv = self@.tasks;
        let ghost p = level_pred(tv, opt_view(self.current_parent), self.filter_mode);
        for i in 0..n
            invariant
                n == self.tasks@.len(),
                tv == self@.tasks,
                p == level_pred(tv, opt_view(self.current_parent), self.filter_mode),
                task_refs_view(res@) == tv.take(i as int).filter(p),
        {
            let t = &self.tasks[i];
            let same_parent = opt_str_eq(&t.parent_id, &self.current_parent);
            let shown = match self.filter_mode {
                FilterMode::Unfinished => !t.completed,
                FilterMode::Completed => t.completed || (!t.completed
                    && self.has_completed_subtasks(t.id.as_str())),
                FilterMode::All => true,
            };
            proof {
                lemma_filter_take_step(tv, p, i as int);
                assert(tv[i as int] == t@);
            }
            let ghost before = res@;
            if same_parent && shown {
                res.push(t);
                assert(task_refs_view(res@) =~= task_refs_view(before).push(t@));
            }
        }
        assert(tv.take(n as int) =~= tv);
        res
    }

    /// The direct sub-tasks of the task with id `parent_id`, in task order.
    pub fn get_subtasks(&self, parent_id: &str) -> (res: Vec<&Task>)
        ensures
            task_refs_view(res@) == subtasks(self@.tasks, parent_id@),
    {
        let pid: String = parent_id.to_owned();
        let mut res: Vec<&Task> = Vec::new();
        let n = self.tasks.len();
        let ghost tv = self@.tasks;
        let ghost p = child_pred(parent_id@);
        for i in 0..n
            invariant
                n == self.tasks@.len(),
                tv == self@.tasks,
                pid@ == parent_id@,
                p == child_pred(parent_id@),
                task_refs_view(res@) == tv.take(i as int).filter(p),
        {
            let t = &self.tasks[i];
            let is_child = match &t.parent_id {
                Some(q) => q.eq(&pid),
                None => false,
            };
            proof {
                lemma_filter_take_step(tv, p, i as int);
                assert(tv[i as int] == t@);
            }
            let ghost before = res@;
            if is_child {
                res.push(t);
                assert(task_refs_view(res@) =~= task_refs_view(before).push(t@));
            }
        }
        assert(tv.take(n as int) =~= tv);
        res
    }

    /// The direct sub-tasks of the task with id `parent_id` that the filter
    /// shows in the sub-task pane, in task order.
    pub fn get_filtered_subtasks(&self, parent_id: &str) -> (res: Vec<&Task>)
        ensures
            task_refs_view(res@) == filtered_subtasks(self@.tasks, parent_id@, self.filter_mode),
    {
        let all_subtasks = self.get_subtasks(parent_id);
        let mut res: Vec<&Task> = Vec::new();
        let n = all_subtasks.len();
        let ghost sv = task_refs_view(all_subtasks@);
        let ghost p = subtask_pred(self.filter_mode);
        for i in 0..n
            invariant
                n == all_subtasks@.len(),
                sv == task_refs_view(all_subtasks@),
                sv == subtasks(self@.tasks, parent_id@),
                p == subtask_pred(self.filter_mode),
                task_refs_view(res@) == sv.take(i as int).filter(p),
        {
            let t: &Task = all_subtasks[i];
            let keep = match self.filter_mode {
                FilterMode::Unfinished => !t.completed,
                FilterMode::Completed => t.completed,
                FilterMode::All => true,
            };
            proof {
                lemma_filter_take_step(sv, p, i as int);
                assert(sv[i as int] == t@);
            }
            let ghost before = res@;
            if keep {
                res.push(t);
                assert(task_refs_view(res@) =~= task_refs_view(before).push(t@));
            }
        }
        assert(sv.take(n as int) =~= sv);
        res
    }

    /// The task that editing, deleting and completing act on.
    fn target_task_ref(&self) -> (res: Option<&Task>)
        ensures
            match res {
                Some(t) => target_task(self@) == Some(t@),
                None => target_task(self@) is None,
            },
    {
        if self.split_view && self.active_pane == Pane::Right {
            let parent_tasks = self.get_current_tasks();
            if !parent_tasks.is_empty() && self.selected_index < parent_tasks.len() {
                let selected_task_id = &parent_tasks[self.selected_index].id;
                let subtasks = self.get_filtered_subtasks(selected_task_id.as_str());
                if !subtasks.is_empty() && self.right_pane_selected_index < subtasks.len() {
                    return Some(subtasks[self.right_pane_selected_index]);
                }
            }
            None
        } else {
            let current_tasks = self.get_current_tasks();
            if !current_tasks.is_empty() && self.selected_index < current_tasks.len() {
                Some(current_tasks[self.selected_index])
            } else {
                None
            }
        }
    }

    /// The parent a new task gets: the task selected in the list when the
    /// sub-task pane is active, else the list that is open.
    pub fn get_parent_for_new_task(&self) -> (res: Option<String>)
        ensures
            opt_view(res) == parent_for_new_task(self@),
    {
        if self.split_view && self.active_pane == Pane::Right {
            let parent_tasks = self.get_current_tasks();
            if !parent_tasks.is_empty() && self.selected_index < parent_tasks.len() {
                Some(parent_tasks[self.selected_index].id.clone())
            } else {
                None
            }
        } else {
            opt_str_clone(&self.current_parent)
        }
    }

    /// Adds the typed text as a new task (nothing when it is blank) and
    /// leaves the input line. Returns whether the list changed and should
    /// be saved.
    pub fn add_task(&mut self) -> (saved: bool)
        ensures
            saved == !spec_is_blank(old(self)@.input_buffer),
            final(self)@ == spec_add_task(old(self)@, final(self)@.tasks.last().id),
            saved ==> hyphenated_uuid_shape(final(self)@.tasks.last().id),
    {
        let mut saved = false;
        if !is_blank(self.input_buffer.as_str()) {
            let parent_id = self.get_parent_for_new_task();
            let task = Task::new(self.input_buffer.clone(), parent_id);
            let ghost before = self.tasks@;
            self.tasks.push(task);
            assert(tasks_view(self.tasks@) =~= tasks_view(before).push(task@));
            saved = true;
        }
        self.input_buffer = String::new();
        self.input_mode = InputMode::Normal;
        saved
    }

    /// Finishes an edit: writes the typed text as the title of the edited
    /// task unless it is blank, and leaves the input line. Returns whether
    /// the list changed and should be saved.
    pub fn edit_task(&mut self) -> (saved: bool)
        ensures
            saved == edit_writes(old(self)@),
            final(self)@ == spec_edit_task(old(self)@),
    {
        let mut saved = false;
        if let Some(task_id) = &self.editing_task_id {
            if !is_blank(self.input_buffer.as_str()) {
                let id = task_id.clone();
                match self.find_task(&id) {
                    Some(k) => {
                        let title = self.input_buffer.clone();
                        let ghost before = self.tasks@;
                        self.tasks[k].title = title;
                        assert(tasks_view(self.tasks@) =~= tasks_view(before).update(
                            k as int,
                            TaskView { title: title@, ..tasks_view(before)[k as int] },
                        ));
                        saved = true;
                    },
                    None => {},
                }
            }
        }
        self.input_buffer = String::new();
        self.editing_task_id = None;
        self.input_mode = InputMode::Normal;
        saved
    }

    /// Starts editing the target task: its title goes into the input line.
    pub fn start_editing(&mut self)
        ensures
            final(self)@ == spec_start_editing(old(self)@),
    {
        match self.target_task_ref() {
            Some(t) => {
                let task_id = t.id.clone();
                let task_title = t.title.clone();
                self.editing_task_id = Some(task_id);
                self.input_buffer = task_title;
                self.input_mode = InputMode::Editing;
            },
            None => {},
        }
    }

    /// Asks to delete the target task.
    pub fn start_deleting(&mut self)
        ensures
            final(self)@ == spec_start_deleting(old(self)@),
    {
        match self.target_task_ref() {
            Some(t) => {
                let task_id = t.id.clone();
                self.deleting_task_id = Some(task_id);
                self.input_mode = InputMode::Deleting;
            },
            None => {},
        }
    }

    /// Carries out the pending deletion: the task and its direct sub-tasks
    /// go. Returns whether the list changed and should be saved (whenever a
    /// deletion was pending).
    pub fn confirm_delete(&mut self) -> (saved: bool)
        ensures
            saved == (old(self)@.deleting_task_id is Some),
            final(self)@ == spec_confirm_delete(old(self)@),
    {
        let mut saved = false;
        if let Some(task_id) = &self.deleting_task_id {
            let id = task_id.clone();
            let n = self.tasks.len();
            let ghost tv = self@.tasks;
            let ghost p = survives_delete(id@);
            let mut kept: Vec<Task> = Vec::new();
            for i in 0..n
                invariant
                    n == self.tasks@.len(),
                    tv == self@.tasks,
                    p == survives_delete(id@),
                    tasks_view(kept@) == tv.take(i as int).filter(p),
            {
                let t = &self.tasks[i];
                let is_child = match &t.parent_id {
                    Some(q) => q.eq(&id),
                    None => false,
                };
                let keep = !t.id.eq(&id) && !is_child;
                proof {
                    lemma_filter_take_step(tv, p, i as int);
                    assert(tv[i as int] == t@);
                }
                let ghost before = kept@;
                if keep {
                    let d = t.duplicate();
                    kept.push(d);
                    assert(tasks_view(kept@) =~= tasks_view(before).push(t@));
                }
            }
            assert(tv.take(n as int) =~= tv);
            self.tasks = kept;
            saved = true;
            if self.split_view && self.active_pane == Pane::Right {
                let parent_tasks = self.get_current_tasks();
                if !parent_tasks.is_empty() && self.selected_index < parent_tasks.len() {
                    let selected_task_id = &parent_tasks[self.selected_index].id;
                    let subtasks = self.get_filtered_subtasks(selected_task_id.as_str());
                    if self.right_pane_selected_index >= subtasks.len()
                        && self.right_pane_selected_index > 0 {
                        self.right_pane_selected_index = self.right_pane_selected_index - 1;
                    }
                }
            } else {
                if self.selected_index >= self.get_current_tasks().len() && self.selected_index > 0 {
                    self.selected_index = self.selected_index - 1;
                }
            }
        }
        self.deleting_task_id = None;
        self.input_mode = InputMode::Normal;
        saved
    }

    /// Cancels the pending deletion.
    pub fn cancel_delete(&mut self)
        ensures
            final(self)@ == spec_cancel_delete(old(self)@),
    {
        self.deleting_task_id = None;
        self.input_mode = InputMode::Normal;
    }

    /// Asks to delete the target task (the `d` key).
    pub fn delete_task(&mut self)
        ensures
            final(self)@ == spec_start_deleting(old(self)@),
    {
        self.start_deleting();
    }

    /// Flips the completion of the target task. Returns whether the list
    /// changed and should be saved.
    pub fn toggle_complete(&mut self) -> (saved: bool)
        ensures
            saved == toggle_writes(old(self)@),
            final(self)@ == spec_toggle_complete(old(self)@),
    {
        let target: Option<String> = match self.target_task_ref() {
            Some(t) => Some(t.id.clone()),
            None => None,
        };
        match target {
            Some(task_id) => match self.find_task(&task_id) {
                Some(k) => {
                    let ghost before = self.tasks@;
                    let c = self.tasks[k].completed;
                    self.tasks[k].completed = !c;
                    assert(tasks_view(self.tasks@) =~= tasks_view(before).update(
                        k as int,
                        toggled(tasks_view(before)[k as int]),
                    ));
                    true
                },
                None => false,
            },
            None => false,
        }
    }

    /// Moves the cursor of the active list up by one.
    pub fn move_up(&mut self)
        ensures
            final(self)@ == spec_move_up(old(self)@),
    {
        if self.split_view && self.active_pane == Pane::Right {
            if self.right_pane_selected_index > 0 {
                self.right_pane_selected_index = self.right_pane_selected_index - 1;
            }
        } else {
            if self.selected_index > 0 {
                self.selected_index = self.selected_index - 1;
                if self.split_view {
                    self.right_pane_selected_index = 0;
                }
            }
        }
    }

    /// Moves the cursor of the active list down by one.
    pub fn move_down(&mut self)
        ensures
            final(self)@ == spec_move_down(old(self)@),
    {
        if self.split_view && self.active_pane == Pane::Right {
            let parent_tasks = self.get_current_tasks();
            if !parent_tasks.is_empty() && self.selected_index < parent_tasks.len() {
                let selected_task_id = &parent_tasks[self.selected_index].id;
                let subtasks = self.get_filtered_subtasks(selected_task_id.as_str());
                if self.right_pane_selected_index < subtasks.len().saturating_sub(1) {
                    self.right_pane_selected_index = self.right_pane_selected_index + 1;
                }
            }
        } else {
            let current_tasks = self.get_current_tasks();
            if self.selected_index < current_tasks.len().saturating_sub(1) {
                self.selected_index = self.selected_index + 1;
                if self.split_view {
                    self.right_pane_selected_index = 0;
                }
            }
        }
    }

    /// Opens the selected task's sub-list (or, split, the sub-task pane).
    pub fn enter_subtask(&mut self)
        ensures
            final(self)@ == spec_enter_subtask(old(self)@),
    {
        let current_tasks = self.get_current_tasks();
        if !current_tasks.is_empty() && self.selected_index < current_tasks.len() {
            if self.split_view {
                self.active_pane = Pane::Right;
                self.right_pane_selected_index = 0;
            } else {
                let task_id = current_tasks[self.selected_index].id.clone();
                self.current_parent = Some(task_id);
                self.selected_index = 0;
            }
        }
    }

    /// Goes back to the parent list (or, split, to the list pane).
    pub fn back_to_parent(&mut self)
        ensures
            final(self)@ == spec_back_to_parent(old(self)@),
    {
        if self.split_view {
            self.active_pane = Pane::Left;
        } else if let Some(current_parent_id) = &self.current_parent {
            let pid = current_parent_id.clone();
            match self.find_task(&pid) {
                Some(k) => {
                    let parent_of_parent = opt_str_clone(&self.tasks[k].parent_id);
                    self.current_parent = parent_of_parent;
                    self.selected_index = 0;
                },
                None => {
                    self.current_parent = None;
                    self.selected_index = 0;
                },
            }
        }
    }
}

} // verus!
