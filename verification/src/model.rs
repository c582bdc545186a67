//! The data of the to-do list: colours, settings, tasks and the modes of
//! the screen.

use vstd::prelude::*;

verus! {

/// A 24-bit colour.
#[derive(Clone, Copy, Debug, PartialEq, Eq, Structural)]
pub struct RgbColor {
    pub r: u8,
    pub g: u8,
    pub b: u8,
}

/// A colour as the screen uses it: one of the configurable RGB colours, or
/// one of the two fixed terminal colours the list uses.
#[derive(Clone, Copy, Debug, PartialEq, Eq, Structural)]
pub enum TermColor {
    Rgb(RgbColor),
    DarkGrey,
    White,
}

impl RgbColor {
    /// The screen colour for this RGB value.
    pub fn to_term_color(&self) -> (res: TermColor)
        ensures
            res == TermColor::Rgb(*self),
    {
        TermColor::Rgb(*self)
    }
}

/// The colours of the screen, one per role.
#[derive(Clone, Copy, Debug, PartialEq, Eq)]
pub struct ColorScheme {
    pub selected_bg: RgbColor,
    pub selected_fg: RgbColor,
    pub inactive_selected_bg: RgbColor,
    pub inactive_selected_fg: RgbColor,
    pub delete_bg: RgbColor,
    pub title_fg: RgbColor,
    pub filter_all_fg: RgbColor,
    pub filter_completed_fg: RgbColor,
    pub filter_unfinished_fg: RgbColor,
    pub delete_fg: RgbColor,
    pub empty_view_fg: RgbColor,
}

/// The colour scheme used when the settings file names none.
pub open spec fn default_color_scheme() -> ColorScheme {
    ColorScheme {
        selected_bg: RgbColor { r: 173, g: 216, b: 230 },
        selected_fg: RgbColor { r: 40, g: 40, b: 40 },
        inactive_selected_bg: RgbColor { r: 169, g: 169, b: 169 },
        inactive_selected_fg: RgbColor { r: 0, g: 0, b: 0 },
        delete_bg: RgbColor { r: 180, g: 80, b: 80 },
        title_fg: RgbColor { r: 80, g: 184, b: 255 },
        filter_all_fg: RgbColor { r: 173, g: 216, b: 230 },
        filter_completed_fg: RgbColor { r: 144, g: 238, b: 144 },
        filter_unfinished_fg: RgbColor { r: 255, g: 255, b: 153 },
        delete_fg: RgbColor { r: 178, g: 34, b: 34 },
        empty_view_fg: RgbColor { r: 160, g: 240, b: 160 },
    }
}

impl Default for ColorScheme {
    fn default() -> (res: Self)
        ensures
            res == default_color_scheme(),
    {
        ColorScheme {
            selected_bg: RgbColor { r: 173, g: 216, b: 230 },
            selected_fg: RgbColor { r: 40, g: 40, b: 40 },
            inactive_selected_bg: RgbColor { r: 169, g: 169, b: 169 },
            inactive_selected_fg: RgbColor { r: 0, g: 0, b: 0 },
            delete_bg: RgbColor { r: 180, g: 80, b: 80 },
            title_fg: RgbColor { r: 80, g: 184, b: 255 },
            filter_all_fg: RgbColor { r: 173, g: 216, b: 230 },
            filter_completed_fg: RgbColor { r: 144, g: 238, b: 144 },
            filter_unfinished_fg: RgbColor { r: 255, g: 255, b: 153 },
            delete_fg: RgbColor { r: 178, g: 34, b: 34 },
            empty_view_fg: RgbColor { r: 160, g: 240, b: 160 },
        }
    }
}

/// What the settings file holds: the colours, and whether the screen is
/// split into a list pane and a sub-task pane.
#[derive(Clone, Copy, Debug, PartialEq, Eq)]
pub struct Settings {
    pub colors: ColorScheme,
    pub split_view: bool,
}

impl Default for Settings {
    fn default() -> (res: Self)
        ensures
            res.colors == default_color_scheme(),
            !res.split_view,
    {
        Settings { colors: ColorScheme::default(), split_view: false }
    }
}

/// One entry of the list. A task whose `parent_id` names another task is a
/// sub-task of it; one without is a top-level task.
#[derive(Debug, PartialEq, Eq)]
pub struct Task {
    pub id: String,
    pub title: String,
    pub completed: bool,
    pub parent_id: Option<String>,
}

/// The text of an optional string, if there is one.
pub open spec fn opt_view(o: Option<String>) -> Option<Seq<char>> {
    match o {
        Some(s) => Some(s@),
        None => None,
    }
}

/// Whether `a` and `b` are both absent or both present with the same text.
pub fn opt_str_eq(a: &Option<String>, b: &Option<String>) -> (res: bool)
    ensures
        res == (opt_view(*a) == opt_view(*b)),
{
    match a {
        Some(x) => match b {
            Some(y) => {
                let same: bool = (*x).eq(y);
                same
            },
            None => false,
        },
        None => b.is_none(),
    }
}

/// A copy of an optional string.
pub fn opt_str_clone(a: &Option<String>) -> (res: Option<String>)
    ensures
        opt_view(res) == opt_view(*a),
{
    match a {
        Some(x) => Some(x.clone()),
        None => None,
    }
}

/// Whether the text `s` reads "-" at the four places where a hyphenated
/// UUID has its separators, and is 36 characters long.
pub open spec fn hyphenated_uuid_shape(s: Seq<char>) -> bool {
    &&& s.len() == 36
    &&& s[8] == '-'
    &&& s[13] == '-'
    &&& s[18] == '-'
    &&& s[23] == '-'
    &&& s[14] == '4'
}

/// Calls `uuid::Uuid::new_v4` and formats the result with its `Display`
/// impl. The value is random; the uuid source shows that the text is the
/// hyphenated lower-case form (36 characters, with `-` after the 8th, 12th,
/// 16th and 20th hex digit) and that the version digit is 4. Nothing else is
/// stated, in particular nothing about uniqueness.
#[verifier::external_body]
fn new_task_id() -> (res: String)
    ensures
        hyphenated_uuid_shape(res@),
{
    uuid::Uuid::new_v4().to_string()
}

impl Task {
    /// A new, unfinished task with a fresh random id.
    pub fn new(title: String, parent_id: Option<String>) -> (res: Self)
        ensures
            hyphenated_uuid_shape(res.id@),
            res.title@ == title@,
            !res.completed,
            opt_view(res.parent_id) == opt_view(parent_id),
    {
        let id = new_task_id();
        Task::with_id(id, title, parent_id)
    }

    /// A new, unfinished task with the given id.
    pub fn with_id(id: String, title: String, parent_id: Option<String>) -> (res: Self)
        ensures
            res.id@ == id@,
            res.title@ == title@,
            !res.completed,
            opt_view(res.parent_id) == opt_view(parent_id),
    {
        Task { id, title, completed: false, parent_id }
    }

    /// A copy of the task.
    pub fn duplicate(&self) -> (res: Self)
        ensures
            res.id@ == self.id@,
            res.title@ == self.title@,
            res.completed == self.completed,
            opt_view(res.parent_id) == opt_view(self.parent_id),
    {
        Task {
            id: self.id.clone(),
            title: self.title.clone(),
            completed: self.completed,
            parent_id: opt_str_clone(&self.parent_id),
        }
    }
}

/// What the keyboard currently does: browse the list, type a new task, edit
/// a title, confirm a deletion, or show the manual.
#[derive(Clone, Copy, Debug, PartialEq, Eq, Structural)]
pub enum InputMode {
    Normal,
    Adding,
    Editing,
    Deleting,
    Help,
}

/// Which tasks the list shows.
#[derive(Clone, Copy, Debug, PartialEq, Eq, Structural)]
pub enum FilterMode {
    Unfinished,
    Completed,
    All,
}

/// The two panes of the split screen.
#[derive(Clone, Copy, Debug, PartialEq, Eq, Structural)]
pub enum Pane {
    Left,
    Right,
}

} // verus!
