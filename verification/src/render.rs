//! The layout of the screen: what is written where, in which colours. The
//! screen is described as a list of drawing commands, which the terminal
//! front end carries out in order.

use vstd::prelude::*;
use vstd::string::StringExecFns;

use crate::app::{
    current_tasks, filtered_subtasks, first_with_id, right_pane_active, selected_task, subtasks,
    task_refs_view, App, AppView, TaskView,
};
use crate::model::InputMode;
use crate::model::{ColorScheme, FilterMode, Pane, Task, TermColor};
use crate::text::{
    fit_count, fit_prefix, repeat_space, spaces, spec_wrap_text, str_width, strings_view,
    unicode_str_width, wrap_text,
};

verus! {

/// One drawing command.
#[derive(Debug, PartialEq, Eq)]
pub enum DrawOp {
    /// Clear the whole screen.
    ClearAll,
    /// Clear the line the cursor is on.
    ClearLine,
    /// Move the cursor to a column and row.
    MoveTo(u16, u16),
    /// Set the text colour.
    Fg(TermColor),
    /// Set the background colour.
    Bg(TermColor),
    /// Write text at the cursor.
    Print(String),
    /// Go back to the terminal's default colours.
    Reset,
}

/// The contents of a drawing command.
pub enum DrawOpView {
    ClearAll,
    ClearLine,
    MoveTo(u16, u16),
    Fg(TermColor),
    Bg(TermColor),
    Print(Seq<char>),
    Reset,
}

impl View for DrawOp {
    type V = DrawOpView;

    open spec fn view(&self) -> DrawOpView {
        match self {
            DrawOp::ClearAll => DrawOpView::ClearAll,
            DrawOp::ClearLine => DrawOpView::ClearLine,
            DrawOp::MoveTo(x, y) => DrawOpView::MoveTo(*x, *y),
            DrawOp::Fg(c) => DrawOpView::Fg(*c),
            DrawOp::Bg(c) => DrawOpView::Bg(*c),
            DrawOp::Print(s) => DrawOpView::Print(s@),
            DrawOp::Reset => DrawOpView::Reset,
        }
    }
}

/// The contents of a list of drawing commands.
pub open spec fn ops_view(v: Seq<DrawOp>) -> Seq<DrawOpView> {
    v.map_values(|o: DrawOp| o@)
}

/// Appends one command.
fn emit(ops: &mut Vec<DrawOp>, op: DrawOp)
    ensures
        ops_view(final(ops)@) == ops_view(old(ops)@).push(op@),
{
    let ghost before = ops@;
    ops.push(op);
    assert(ops_view(ops@) =~= ops_view(before).push(op@));
}

/// Appends a command that writes a text given as a string slice.
fn emit_str(ops: &mut Vec<DrawOp>, s: &str)
    ensures
        ops_view(final(ops)@) == ops_view(old(ops)@).push(DrawOpView::Print(s@)),
{
    emit(ops, DrawOp::Print(String::from_str(s)));
}

/// Writing a title: move to the place, write in the title colour, reset.
pub open spec fn title_ops(x: u16, text: Seq<char>, colors: ColorScheme) -> Seq<DrawOpView> {
    seq![
        DrawOpView::MoveTo(x, 0),
        DrawOpView::Fg(TermColor::Rgb(colors.title_fg)),
        DrawOpView::Print(text),
        DrawOpView::Reset,
    ]
}

/// Appends the commands of a title.
fn emit_title(ops: &mut Vec<DrawOp>, x: u16, text: &str, colors: &ColorScheme)
    ensures
        ops_view(final(ops)@) == ops_view(old(ops)@) + title_ops(x, text@, *colors),
{
    let ghost before = ops_view(ops@);
    emit(ops, DrawOp::MoveTo(x, 0));
    emit(ops, DrawOp::Fg(TermColor::Rgb(colors.title_fg)));
    emit_str(ops, text);
    emit(ops, DrawOp::Reset);
    assert(ops_view(ops@) =~= before + title_ops(x, text@, *colors));
}

// ---------------------------------------------------------------------------
// The divider between the panes
// ---------------------------------------------------------------------------

/// One cell of the divider.
pub open spec fn divider_cell(x: u16, y: u16, colors: ColorScheme) -> Seq<DrawOpView> {
    seq![
        DrawOpView::MoveTo(x, y),
        DrawOpView::Fg(TermColor::Rgb(colors.inactive_selected_bg)),
        DrawOpView::Print("│"@),
        DrawOpView::Reset,
    ]
}

/// The first `n` cells of the divider, from the top.
pub open spec fn divider_cells(x: u16, n: nat, colors: ColorScheme) -> Seq<DrawOpView>
    decreases n,
{
    if n == 0 {
        Seq::empty()
    } else {
        divider_cells(x, (n - 1) as nat, colors) + divider_cell(x, (n - 1) as u16, colors)
    }
}

/// The vertical line in column `split_x` from row 0 down to row `height`.
pub fn draw_split_divider(ops: &mut Vec<DrawOp>, split_x: u16, height: u16, colors: &ColorScheme)
    ensures
        ops_view(final(ops)@) == ops_view(old(ops)@) + divider_cells(split_x, height as nat + 1, *colors),
{
    let ghost start = ops_view(ops@);
    let mut y: u32 = 0;
    while y <= height as u32
        invariant
            y <= height as u32 + 1,
            ops_view(ops@) == start + divider_cells(split_x, y as nat, *colors),
        decreases height as u32 + 1 - y,
    {
        let ghost before = ops_view(ops@);
        emit(ops, DrawOp::MoveTo(split_x, y as u16));
        emit(ops, DrawOp::Fg(TermColor::Rgb(colors.inactive_selected_bg)));
        emit_str(ops, "│");
        emit(ops, DrawOp::Reset);
        assert(ops_view(ops@) =~= before + divider_cell(split_x, y as u16, *colors));
        y = y + 1;
        assert(start + divider_cells(split_x, y as nat, *colors) =~= before + divider_cell(
            split_x,
            (y - 1) as u16,
            *colors,
        ));
    }
}

// ---------------------------------------------------------------------------
// The manual
// ---------------------------------------------------------------------------

/// The manual shown on the whole screen, line by line (22 lines).
pub open spec fn help_full_line_text(i: int) -> Seq<char> {
    if i == 0 {
        ""@
    } else if i == 1 {
        "Manual: TerDO の使い方"@
    } else if i == 2 {
        ""@
    } else if i == 3 {
        "キー - 対応する動作"@
    } else if i == 4 {
        "  A - 全てのタスクを表示"@
    } else if i == 5 {
        "  C - 完了済みタスクを表示"@
    } else if i == 6 {
        "  D - タスクの削除"@
    } else if i == 7 {
        "  E - タスクの編集"@
    } else if i == 8 {
        "  F - タスクの検索（未実装）"@
    } else if i == 9 {
        "  H, ←, BACKSPACE - 親タスクに戻る"@
    } else if i == 10 {
        "  J, ↓ - タスクを下に移動"@
    } else if i == 11 {
        "  K, ↑ - タスクを上に移動"@
    } else if i == 12 {
        "  L, →, ENTER - サブタスクに移動"@
    } else if i == 13 {
        "  M - ヘルプを表示・非表示"@
    } else if i == 14 {
        "  N - タスクの作成"@
    } else if i == 15 {
        "  Q - アプリケーションを終了"@
    } else if i == 16 {
        "  R - タスクのリストを更新"@
    } else if i == 17 {
        "  S - タスクの並び替え"@
    } else if i == 18 {
        "  T - タスクの完了状態を切り替え"@
    } else if i == 19 {
        "  | - 画面分割の切り替えON/OFF"@
    } else if i == 20 {
        "  SPACE - タスクの完了状態を切り替え"@
    } else {
        ""@
    }
}

/// Line `i` of the manual shown on the whole screen, line by line (22 lines).
pub fn help_full_line(i: usize) -> (res: &'static str)
    ensures
        res@ == help_full_line_text(i as int),
{
    match i {
        0 => "",
        1 => "Manual: TerDO の使い方",
        2 => "",
        3 => "キー - 対応する動作",
        4 => "  A - 全てのタスクを表示",
        5 => "  C - 完了済みタスクを表示",
        6 => "  D - タスクの削除",
        7 => "  E - タスクの編集",
        8 => "  F - タスクの検索（未実装）",
        9 => "  H, ←, BACKSPACE - 親タスクに戻る",
        10 => "  J, ↓ - タスクを下に移動",
        11 => "  K, ↑ - タスクを上に移動",
        12 => "  L, →, ENTER - サブタスクに移動",
        13 => "  M - ヘルプを表示・非表示",
        14 => "  N - タスクの作成",
        15 => "  Q - アプリケーションを終了",
        16 => "  R - タスクのリストを更新",
        17 => "  S - タスクの並び替え",
        18 => "  T - タスクの完了状態を切り替え",
        19 => "  | - 画面分割の切り替えON/OFF",
        20 => "  SPACE - タスクの完了状態を切り替え",
        _ => "",
    }
}

/// The manual shown in a pane, line by line (22 lines).
pub open spec fn help_pane_line_text(i: int) -> Seq<char> {
    if i == 0 {
        ""@
    } else if i == 1 {
        "Manual: TerDO の使い方"@
    } else if i == 2 {
        ""@
    } else if i == 3 {
        "キー - 対応する動作"@
    } else if i == 4 {
        "  A - all: 全てのタスクを表示"@
    } else if i == 5 {
        "  C - completed: 完了済みタスクを表示"@
    } else if i == 6 {
        "  D - delete: タスクの削除"@
    } else if i == 7 {
        "  E - edit: タスクの編集"@
    } else if i == 8 {
        "  F - find: タスクの検索（未実装）"@
    } else if i == 9 {
        "  H, ←, BACKSPACE - back/left: 親タスクに戻る / 左ペインをアクティブ"@
    } else if i == 10 {
        "  J, ↓ - down: タスクを下に移動"@
    } else if i == 11 {
        "  K, ↑ - up: タスクを上に移動"@
    } else if i == 12 {
        "  L, →, ENTER - right: サブタスクに移動 / 右ペインをアクティブ"@
    } else if i == 13 {
        "  M - manual: ヘルプを表示・非表示"@
    } else if i == 14 {
        "  N - new: タスクの作成"@
    } else if i == 15 {
        "  Q - quit: アプリケーションを終了"@
    } else if i == 16 {
        "  R - refresh: タスクのリストを更新"@
    } else if i == 17 {
        "  S - sort: タスクの並び替え"@
    } else if i == 18 {
        "  T - toggle: タスクの完了状態を切り替え"@
    } else if i == 19 {
        "  | - split: 画面分割の切り替えON/OFF"@
    } else if i == 20 {
        "  SPACE - toggle complete: タスクの完了状態を切り替え"@
    } else {
        ""@
    }
}

/// Line `i` of the manual shown in a pane, line by line (22 lines).
pub fn help_pane_line(i: usize) -> (res: &'static str)
    ensures
        res@ == help_pane_line_text(i as int),
{
    match i {
        0 => "",
        1 => "Manual: TerDO の使い方",
        2 => "",
        3 => "キー - 対応する動作",
        4 => "  A - all: 全てのタスクを表示",
        5 => "  C - completed: 完了済みタスクを表示",
        6 => "  D - delete: タスクの削除",
        7 => "  E - edit: タスクの編集",
        8 => "  F - find: タスクの検索（未実装）",
        9 => "  H, ←, BACKSPACE - back/left: 親タスクに戻る / 左ペインをアクティブ",
        10 => "  J, ↓ - down: タスクを下に移動",
        11 => "  K, ↑ - up: タスクを上に移動",
        12 => "  L, →, ENTER - right: サブタスクに移動 / 右ペインをアクティブ",
        13 => "  M - manual: ヘルプを表示・非表示",
        14 => "  N - new: タスクの作成",
        15 => "  Q - quit: アプリケーションを終了",
        16 => "  R - refresh: タスクのリストを更新",
        17 => "  S - sort: タスクの並び替え",
        18 => "  T - toggle: タスクの完了状態を切り替え",
        19 => "  | - split: 画面分割の切り替えON/OFF",
        20 => "  SPACE - toggle complete: タスクの完了状態を切り替え",
        _ => "",
    }
}

/// How many lines of the manual fit above the bottom of a `height`-row
/// area whose first row holds the title.
pub open spec fn help_lines_shown(height: u16) -> nat {
    let room: int = height - 1;
    if room <= 0 {
        0
    } else if room < 22 {
        room as nat
    } else {
        22
    }
}

/// The first `n` lines of the full-screen manual, from row 1 down.
pub open spec fn help_full_rows(n: nat) -> Seq<DrawOpView>
    decreases n,
{
    if n == 0 {
        Seq::empty()
    } else {
        help_full_rows((n - 1) as nat) + seq![
            DrawOpView::MoveTo(2, n as u16),
            DrawOpView::Print(help_full_line_text(n - 1)),
        ]
    }
}

/// The manual on the whole screen.
pub open spec fn help_full_ops(s: AppView, height: u16) -> Seq<DrawOpView> {
    title_ops(0, "Manual"@, s.settings.colors) + help_full_rows(help_lines_shown(height))
}

/// The manual on the whole screen: the title, then as many lines as fit.
pub fn draw_help_full(app: &App, ops: &mut Vec<DrawOp>, _width: u16, height: u16)
    ensures
        ops_view(final(ops)@) == ops_view(old(ops)@) + help_full_ops(app@, height),
{
    let colors = &app.settings.colors;
    emit_title(ops, 0, "Manual", colors);
    let ghost start = ops_view(ops@);
    let mut i: usize = 0;
    while i < 22 && i + 1 < height as usize
        invariant
            i <= 22,
            i <= help_lines_shown(height),
            ops_view(ops@) == start + help_full_rows(i as nat),
        decreases 22 - i,
    {
        let ghost before = ops_view(ops@);
        emit(ops, DrawOp::MoveTo(2, (i + 1) as u16));
        emit_str(ops, help_full_line(i));
        i = i + 1;
        assert(ops_view(ops@) =~= start + help_full_rows(i as nat));
    }
    assert(i == help_lines_shown(height));
}

/// Line `i` of the pane manual as shown in `max` columns: cut to the
/// longest prefix that fits when it is wider.
pub open spec fn help_pane_shown(i: int, max: nat) -> Seq<char> {
    let line = help_pane_line_text(i);
    if unicode_str_width(line) > max {
        line.take(fit_count(line, 0, max) as int)
    } else {
        line
    }
}

/// The first `n` lines of the pane manual at column `x + 2`.
pub open spec fn help_pane_rows(x: u16, max: nat, n: nat) -> Seq<DrawOpView>
    decreases n,
{
    if n == 0 {
        Seq::empty()
    } else {
        help_pane_rows(x, max, (n - 1) as nat) + seq![
            DrawOpView::MoveTo((x + 2) as u16, n as u16),
            DrawOpView::Print(help_pane_shown(n - 1, max)),
        ]
    }
}

/// The column where the manual pane starts: the right half when the list
/// pane is active, else the left edge.
pub open spec fn help_pane_x(s: AppView, width: u16) -> u16 {
    if s.active_pane == Pane::Left {
        (width / 2) as u16
    } else {
        0
    }
}

/// The width the manual pane's lines are cut to.
pub open spec fn help_pane_max(width: u16) -> nat {
    let half: int = width as int / 2;
    if half >= 3 {
        (half - 3) as nat
    } else {
        0
    }
}

/// The manual in a pane.
pub open spec fn help_pane_ops(s: AppView, width: u16, height: u16) -> Seq<DrawOpView> {
    title_ops((help_pane_x(s, width) + 1) as u16, "Manual"@, s.settings.colors) + help_pane_rows(
        help_pane_x(s, width),
        help_pane_max(width),
        help_lines_shown(height),
    )
}

/// The manual in the inactive pane of a split screen: the title, then as
/// many lines as fit, each cut to the pane's width.
pub fn draw_help_pane(app: &App, ops: &mut Vec<DrawOp>, width: u16, height: u16)
    ensures
        ops_view(final(ops)@) == ops_view(old(ops)@) + help_pane_ops(app@, width, height),
{
    let colors = &app.settings.colors;
    let split_x: u16 = if app.active_pane == Pane::Left {
        width / 2
    } else {
        0
    };
    let pane_width: u16 = width / 2;
    emit_title(ops, split_x + 1, "Manual", colors);
    let ghost start = ops_view(ops@);
    let mut i: usize = 0;
    while i < 22 && i + 1 < height as usize
        invariant
            i <= 22,
            i <= help_lines_shown(height),
            split_x == help_pane_x(app@, width),
            pane_width == width / 2,
            ops_view(ops@) == start + help_pane_rows(split_x, help_pane_max(width), i as nat),
        decreases 22 - i,
    {
        let line = help_pane_line(i);
        let max_width = pane_width.saturating_sub(3) as usize;
        let truncated: String = if str_width(line) > max_width {
            let (prefix, _cut) = fit_prefix(line, 0, max_width);
            prefix
        } else {
            String::from_str(line)
        };
        let ghost before = ops_view(ops@);
        emit(ops, DrawOp::MoveTo(split_x + 2, (i + 1) as u16));
        emit(ops, DrawOp::Print(truncated));
        i = i + 1;
        assert(ops_view(ops@) =~= start + help_pane_rows(split_x, help_pane_max(width), i as nat));
    }
    assert(i == help_lines_shown(height));
}

// ---------------------------------------------------------------------------
// The bottom area: the key help, the input line, the deletion question
// ---------------------------------------------------------------------------

/// The number of bytes of a text in UTF-8, as `str::len` returns it.
pub open spec fn byte_len(s: Seq<char>) -> usize {
    vstd::utf8::encode_utf8(s).len() as usize
}

/// `a - b`, or 0 when `b` is larger.
pub open spec fn sat_sub(a: int, b: int) -> nat {
    if a > b {
        (a - b) as nat
    } else {
        0
    }
}

/// The row of the bar above the input line: two rows from the bottom.
pub open spec fn bar_row(height: u16) -> u16 {
    sat_sub(height as int, 2) as u16
}

/// A bar in the inactive-selection colours with `text` on it.
pub open spec fn bar_ops(y: u16, text: Seq<char>, colors: ColorScheme) -> Seq<DrawOpView> {
    seq![
        DrawOpView::MoveTo(0, y),
        DrawOpView::Bg(TermColor::Rgb(colors.inactive_selected_bg)),
        DrawOpView::Fg(TermColor::Rgb(colors.inactive_selected_fg)),
        DrawOpView::Print(text),
        DrawOpView::Reset,
    ]
}

/// The input line as shown in `width` columns: "> " and the typed text,
/// cut to what fits when it is wider.
pub open spec fn input_line_shown(buf: Seq<char>, width: u16) -> Seq<char> {
    let display = "> "@ + buf;
    if unicode_str_width(display) > width {
        "> "@ + buf.take(
            fit_count(buf, unicode_str_width("> "@) as nat, width as nat) as int,
        )
    } else {
        display
    }
}

/// A text cut to `max` columns after `start` columns, with "..." when
/// something was left out.
pub open spec fn cut_with_dots(text: Seq<char>, start: nat, max: nat) -> Seq<char> {
    let k = fit_count(text, start, max);
    if k < text.len() {
        text.take(k as int) + "..."@
    } else {
        text.take(k as int)
    }
}

/// The key help shown while browsing.
pub open spec fn key_help_text() -> Seq<char> {
    "(m)anual | (n)ew | [k]prev | [j]next | (e)dit | (d)el | [ ]finish! | [l]in | [h]out | [u/c/a]filter | [|]split | (q)uit"@
}

/// What the key help shows in `width` columns: all of it, or what fits in
/// three columns less followed by "...".
pub open spec fn key_help_shown(width: u16) -> Seq<char> {
    if unicode_str_width(key_help_text()) > width {
        cut_with_dots(key_help_text(), 0, sat_sub(width as int, 3))
    } else {
        key_help_text()
    }
}

/// What the deletion question shows for a task title in `width` columns.
pub open spec fn delete_text_shown(title: Seq<char>, width: u16) -> Seq<char> {
    let text = "delete "@ + title;
    if unicode_str_width(text) > width {
        "delete "@ + cut_with_dots(
            title,
            unicode_str_width("delete "@) as nat,
            sat_sub(width as int, 3),
        )
    } else {
        text
    }
}

/// The heading of the input line while adding: a sub-task when the
/// sub-task pane is active or a sub-list is open.
pub open spec fn adding_message(s: AppView) -> Seq<char> {
    if right_pane_active(s) || s.current_parent is Some {
        "New Sub-task"@ + " [Enter: Save, Esc: Cancel]"@
    } else {
        "New Task"@ + " [Enter: Save, Esc: Cancel]"@
    }
}

/// The "Quick Help" bar, padded to `width`.
pub open spec fn quick_help_bar(width: u16) -> Seq<char> {
    "Quick Help"@ + spaces(sat_sub(width as int, 10))
}

/// The bottom two rows, after the bar row is cleared.
pub open spec fn bottom_body(s: AppView, width: u16, y: u16) -> Seq<DrawOpView> {
    let colors = s.settings.colors;
    let next = (y + 1) as u16;
    if s.input_mode == InputMode::Adding {
        let msg = adding_message(s);
        bar_ops(y, msg + spaces(sat_sub(width as int, byte_len(msg) as int)), colors) + seq![
            DrawOpView::MoveTo(0, next),
            DrawOpView::Print(input_line_shown(s.input_buffer, width)),
        ]
    } else if s.input_mode == InputMode::Editing {
        bar_ops(
            y,
            "Edit Task [Enter: Save, Esc: Cancel]"@ + spaces(sat_sub(width as int, 38)),
            colors,
        ) + seq![
            DrawOpView::MoveTo(0, next),
            DrawOpView::Print(input_line_shown(s.input_buffer, width)),
        ]
    } else if s.input_mode == InputMode::Deleting {
        match s.deleting_task_id {
            Some(id) => match first_with_id(s.tasks, id) {
                Some(k) => {
                    let shown = delete_text_shown(s.tasks[k].title, width);
                    seq![
                        DrawOpView::MoveTo(0, y),
                        DrawOpView::Bg(TermColor::Rgb(colors.delete_bg)),
                        DrawOpView::Print(
                            shown + spaces(sat_sub(width as int, unicode_str_width(shown) as int)),
                        ),
                        DrawOpView::Reset,
                        DrawOpView::MoveTo(0, next),
                        DrawOpView::Print("> "@),
                        DrawOpView::Fg(TermColor::Rgb(colors.delete_fg)),
                        DrawOpView::Print("(Y)es"@),
                        DrawOpView::Reset,
                        DrawOpView::Print(" / (N)o"@),
                    ]
                },
                None => Seq::empty(),
            },
            None => Seq::empty(),
        }
    } else if s.input_mode == InputMode::Help {
        bar_ops(y, quick_help_bar(width), colors) + seq![
            DrawOpView::MoveTo(0, next),
            DrawOpView::Print("Press (m) to close help"@),
        ]
    } else {
        bar_ops(y, quick_help_bar(width), colors) + seq![
            DrawOpView::MoveTo(0, next),
            DrawOpView::Print(key_help_shown(width)),
        ]
    }
}

/// The commands of the bottom area of a `width` x `height` screen.
pub open spec fn bottom_ops(s: AppView, width: u16, height: u16) -> Seq<DrawOpView> {
    seq![DrawOpView::MoveTo(0, bar_row(height)), DrawOpView::ClearLine] + bottom_body(
        s,
        width,
        bar_row(height),
    )
}

/// Appends a bar in the inactive-selection colours.
fn emit_bar(ops: &mut Vec<DrawOp>, y: u16, text: String, colors: &ColorScheme)
    ensures
        ops_view(final(ops)@) == ops_view(old(ops)@) + bar_ops(y, text@, *colors),
{
    let ghost before = ops_view(ops@);
    let ghost t = text@;
    emit(ops, DrawOp::MoveTo(0, y));
    emit(ops, DrawOp::Bg(TermColor::Rgb(colors.inactive_selected_bg)));
    emit(ops, DrawOp::Fg(TermColor::Rgb(colors.inactive_selected_fg)));
    emit(ops, DrawOp::Print(text));
    emit(ops, DrawOp::Reset);
    assert(ops_view(ops@) =~= before + bar_ops(y, t, *colors));
}

/// The input line for the typed text: "> " and the text, cut to `width`.
fn input_line(buf: &String, width: u16) -> (res: String)
    ensures
        res@ == input_line_shown(buf@, width),
{
    let mut input_display = String::from_str("> ");
    input_display.append(buf.as_str());
    let max_input_width = width as usize;
    if str_width(input_display.as_str()) > max_input_width {
        let mut truncated = String::from_str("> ");
        let (prefix, _cut) = fit_prefix(buf.as_str(), str_width("> "), max_input_width);
        truncated.append(prefix.as_str());
        truncated
    } else {
        input_display
    }
}

/// `text` cut to `max` columns after `start` columns, with "..." when
/// something was left out.
fn cut_text_with_dots(text: &str, start: usize, max: usize) -> (res: String)
    ensures
        res@ == cut_with_dots(text@, start as nat, max as nat),
{
    let (mut truncated, cut) = fit_prefix(text, start, max);
    if cut {
        truncated.append("...");
    }
    truncated
}

/// The bottom area: the bar and the line below it, which depend on what
/// the keyboard is doing.
pub fn draw_bottom_area(app: &App, ops: &mut Vec<DrawOp>, width: u16, height: u16)
    ensures
        ops_view(final(ops)@) == ops_view(old(ops)@) + bottom_ops(app@, width, height),
{
    let ghost start = ops_view(ops@);
    let help_y: u16 = height.saturating_sub(2);
    let colors = &app.settings.colors;
    emit(ops, DrawOp::MoveTo(0, help_y));
    emit(ops, DrawOp::ClearLine);
    let ghost head = ops_view(ops@);
    assert(head =~= start + seq![DrawOpView::MoveTo(0, bar_row(height)), DrawOpView::ClearLine]);
    if app.input_mode == InputMode::Adding {
        let task_type = if app.split_view && app.active_pane == Pane::Right {
            "New Sub-task"
        } else if app.current_parent.is_some() {
            "New Sub-task"
        } else {
            "New Task"
        };
        let mut message = String::from_str(task_type);
        message.append(" [Enter: Save, Esc: Cancel]");
        let padding_len = (width as usize).saturating_sub(message.as_str().len());
                let truncated_input = input_line(&app.input_buffer, width);
        let ghost ti = truncated_input@;
        let mut bar = message;
        bar.append(repeat_space(padding_len).as_str());
        emit_bar(ops, help_y, bar, colors);
        emit(ops, DrawOp::MoveTo(0, help_y + 1));
        emit(ops, DrawOp::Print(truncated_input));
        assert(ops_view(ops@) =~= head + bottom_body(app@, width, help_y));
    } else if app.input_mode == InputMode::Editing {
        let truncated_input = input_line(&app.input_buffer, width);
        let mut bar = String::from_str("Edit Task [Enter: Save, Esc: Cancel]");
        bar.append(repeat_space((width as usize).saturating_sub(38)).as_str());
        emit_bar(ops, help_y, bar, colors);
        emit(ops, DrawOp::MoveTo(0, help_y + 1));
        emit(ops, DrawOp::Print(truncated_input));
        assert(ops_view(ops@) =~= head + bottom_body(app@, width, help_y));
    } else if app.input_mode == InputMode::Deleting {
        if let Some(task_id) = &app.deleting_task_id {
            if let Some(k) = app.find_task(task_id) {
                let task = &app.tasks[k];
                let mut delete_text = String::from_str("delete ");
                delete_text.append(task.title.as_str());
                let max_width = width as usize;
                let truncated_delete_text = if str_width(delete_text.as_str()) > max_width {
                    let mut truncated = String::from_str("delete ");
                    let rest = cut_text_with_dots(
                        task.title.as_str(),
                        str_width("delete "),
                        max_width.saturating_sub(3),
                    );
                    truncated.append(rest.as_str());
                    truncated
                } else {
                    delete_text
                };
                let padding = repeat_space(
                    max_width.saturating_sub(str_width(truncated_delete_text.as_str())),
                );
                let mut line = truncated_delete_text;
                line.append(padding.as_str());
                emit(ops, DrawOp::MoveTo(0, help_y));
                emit(ops, DrawOp::Bg(TermColor::Rgb(colors.delete_bg)));
                emit(ops, DrawOp::Print(line));
                emit(ops, DrawOp::Reset);
                emit(ops, DrawOp::MoveTo(0, help_y + 1));
                emit_str(ops, "> ");
                emit(ops, DrawOp::Fg(TermColor::Rgb(colors.delete_fg)));
                emit_str(ops, "(Y)es");
                emit(ops, DrawOp::Reset);
                emit_str(ops, " / (N)o");
                assert(ops_view(ops@) =~= head + bottom_body(app@, width, help_y));
            } else {
                assert(ops_view(ops@) =~= head + bottom_body(app@, width, help_y));
            }
        } else {
            assert(ops_view(ops@) =~= head + bottom_body(app@, width, help_y));
        }
    } else if app.input_mode == InputMode::Help {
        let mut bar = String::from_str("Quick Help");
        bar.append(repeat_space((width as usize).saturating_sub(10)).as_str());
        emit_bar(ops, help_y, bar, colors);
        emit(ops, DrawOp::MoveTo(0, help_y + 1));
        emit_str(ops, "Press (m) to close help");
        assert(ops_view(ops@) =~= head + bottom_body(app@, width, help_y));
    } else {
        let help_text = "(m)anual | (n)ew | [k]prev | [j]next | (e)dit | (d)el | [ ]finish! | [l]in | [h]out | [u/c/a]filter | [|]split | (q)uit";
        let max_help_width = width as usize;
        let truncated_help = if str_width(help_text) > max_help_width {
            cut_text_with_dots(help_text, 0, max_help_width.saturating_sub(3))
        } else {
            String::from_str(help_text)
        };
        let mut bar = String::from_str("Quick Help");
        bar.append(repeat_space((width as usize).saturating_sub(10)).as_str());
        emit_bar(ops, help_y, bar, colors);
        emit(ops, DrawOp::MoveTo(0, help_y + 1));
        emit(ops, DrawOp::Print(truncated_help));
        assert(ops_view(ops@) =~= head + bottom_body(app@, width, help_y));
    }
}

// ---------------------------------------------------------------------------
// Filter label and colours
// ---------------------------------------------------------------------------

/// The name of a filter as the screen shows it.
pub open spec fn filter_label(m: FilterMode) -> Seq<char> {
    match m {
        FilterMode::Unfinished => "unfinished"@,
        FilterMode::Completed => "completed"@,
        FilterMode::All => "all task"@,
    }
}

/// The colour of a filter's name.
pub open spec fn filter_color(s: AppView) -> TermColor {
    match s.filter_mode {
        FilterMode::Unfinished => TermColor::Rgb(s.settings.colors.filter_unfinished_fg),
        FilterMode::Completed => TermColor::Rgb(s.settings.colors.filter_completed_fg),
        FilterMode::All => TermColor::Rgb(s.settings.colors.filter_all_fg),
    }
}

/// The colour of the message of an empty list: the configured colour when
/// the pane is active, dark grey otherwise.
pub open spec fn empty_view_color(is_active: bool, colors: ColorScheme) -> TermColor {
    if is_active {
        TermColor::Rgb(colors.empty_view_fg)
    } else {
        TermColor::DarkGrey
    }
}

/// The colour of the message of an empty list.
pub fn get_empty_view_color(is_active: bool, colors: &ColorScheme) -> (res: TermColor)
    ensures
        res == empty_view_color(is_active, *colors),
{
    if is_active {
        colors.empty_view_fg.to_term_color()
    } else {
        TermColor::DarkGrey
    }
}

impl App {
    /// The filter's name and its colour. The names are ASCII and at most 10
    /// bytes long.
    pub fn get_filter_display(&self) -> (res: (&'static str, TermColor))
        ensures
            res.0@ == filter_label(self.filter_mode),
            res.1 == filter_color(self@),
            byte_len(res.0@) <= 10,
            res.0@.len() <= 10,
    {
        match self.filter_mode {
            FilterMode::Unfinished => {
                let label = "unfinished";
                proof {
                    reveal_strlit("unfinished");
                    assert(vstd::string::is_ascii(label));
                    vstd::string::is_ascii_spec_bytes(label);
                }
                (label, self.settings.colors.filter_unfinished_fg.to_term_color())
            },
            FilterMode::Completed => {
                let label = "completed";
                proof {
                    reveal_strlit("completed");
                    assert(vstd::string::is_ascii(label));
                    vstd::string::is_ascii_spec_bytes(label);
                }
                (label, self.settings.colors.filter_completed_fg.to_term_color())
            },
            FilterMode::All => {
                let label = "all task";
                proof {
                    reveal_strlit("all task");
                    assert(vstd::string::is_ascii(label));
                    vstd::string::is_ascii_spec_bytes(label);
                }
                (label, self.settings.colors.filter_all_fg.to_term_color())
            },
        }
    }
}

/// Writing a filter name at column `x` of the top row.
pub open spec fn filter_ops(x: u16, s: AppView) -> Seq<DrawOpView> {
    seq![
        DrawOpView::MoveTo(x, 0),
        DrawOpView::Fg(filter_color(s)),
        DrawOpView::Print(filter_label(s.filter_mode)),
        DrawOpView::Reset,
    ]
}

/// Writing the message of an empty list at column `x` of row 1.
pub open spec fn empty_message_ops(x: u16, color: TermColor, text: Seq<char>) -> Seq<DrawOpView> {
    seq![
        DrawOpView::MoveTo(x, 1),
        DrawOpView::Fg(color),
        DrawOpView::Print(text),
        DrawOpView::Reset,
    ]
}

// ---------------------------------------------------------------------------
// Rows of task lists
// ---------------------------------------------------------------------------

/// How a row of a task list is coloured.
#[derive(Clone, Copy, Debug, PartialEq, Eq, Structural)]
pub enum RowKind {
    /// The selected task of the active pane.
    Selected,
    /// The selected task of the inactive pane.
    InactiveSelected,
    /// An unfinished task shown for its completed sub-tasks.
    Dim,
    /// Any other task.
    Plain,
}

/// A row of a task list: its text, its colouring, and the spaces that
/// extend a highlighted row to the width of the pane.
pub struct RowView {
    pub text: Seq<char>,
    pub kind: RowKind,
    pub pad: nat,
}

/// Writing one row at column `x` of screen row `y`.
pub open spec fn row_ops(x: u16, y: u16, r: RowView, colors: ColorScheme) -> Seq<DrawOpView> {
    seq![DrawOpView::MoveTo(x, y)] + match r.kind {
        RowKind::Selected => seq![
            DrawOpView::Bg(TermColor::Rgb(colors.selected_bg)),
            DrawOpView::Fg(TermColor::Rgb(colors.selected_fg)),
            DrawOpView::Print(r.text + spaces(r.pad)),
            DrawOpView::Reset,
        ],
        RowKind::InactiveSelected => seq![
            DrawOpView::Bg(TermColor::Rgb(colors.inactive_selected_bg)),
            DrawOpView::Fg(TermColor::Rgb(colors.inactive_selected_fg)),
            DrawOpView::Print(r.text + spaces(r.pad)),
            DrawOpView::Reset,
        ],
        RowKind::Dim => seq![
            DrawOpView::Fg(TermColor::DarkGrey),
            DrawOpView::Print(r.text),
            DrawOpView::Reset,
        ],
        RowKind::Plain => seq![
            DrawOpView::Fg(TermColor::White),
            DrawOpView::Print(r.text),
            DrawOpView::Reset,
        ],
    }
}

/// Writing rows at column `x`, the first on screen row 1.
pub open spec fn rows_ops(x: u16, rows: Seq<RowView>, colors: ColorScheme) -> Seq<DrawOpView>
    decreases rows.len(),
{
    if rows.len() == 0 {
        Seq::empty()
    } else {
        rows_ops(x, rows.drop_last(), colors) + row_ops(x, rows.len() as u16, rows.last(), colors)
    }
}

/// The rows of the first `n` entries of a list, entry after entry.
pub open spec fn concat_rows(f: spec_fn(int) -> Seq<RowView>, n: nat) -> Seq<RowView>
    decreases n,
{
    if n == 0 {
        Seq::empty()
    } else {
        concat_rows(f, (n - 1) as nat) + f(n - 1)
    }
}

/// The rows of the first `i` entries come first among those of the first
/// `m`.
pub proof fn lemma_concat_rows_prefix(f: spec_fn(int) -> Seq<RowView>, i: nat, m: nat)
    requires
        i <= m,
    ensures
        concat_rows(f, i).len() <= concat_rows(f, m).len(),
        concat_rows(f, m).take(concat_rows(f, i).len() as int) == concat_rows(f, i),
    decreases m,
{
    if i < m {
        lemma_concat_rows_prefix(f, i, (m - 1) as nat);
        let a = concat_rows(f, (m - 1) as nat);
        assert(concat_rows(f, m) == a + f(m - 1));
        assert((a + f(m - 1)).take(concat_rows(f, i).len() as int) =~= a.take(
            concat_rows(f, i).len() as int,
        ));
    } else {
        assert(concat_rows(f, m).take(concat_rows(f, i).len() as int) =~= concat_rows(f, i));
    }
}

/// The row of entry `i` with `j` rows before it in the entry sits right
/// after the rows of the entries before.
pub proof fn lemma_concat_rows_index(f: spec_fn(int) -> Seq<RowView>, i: nat, j: int, m: nat)
    requires
        i < m,
        0 <= j < f(i as int).len(),
    ensures
        concat_rows(f, i).len() + j < concat_rows(f, m).len(),
        concat_rows(f, m)[concat_rows(f, i).len() + j] == f(i as int)[j],
{
    lemma_concat_rows_prefix(f, i + 1, m);
    let b = concat_rows(f, i + 1);
    assert(b == concat_rows(f, i) + f(i as int));
    let k = concat_rows(f, i).len() + j;
    assert(b[k] == f(i as int)[j]);
    assert(concat_rows(f, m).take(b.len() as int)[k] == concat_rows(f, m)[k]);
}

/// At most `height` rows of a list, from the top.
pub open spec fn visible_rows(rows: Seq<RowView>, height: u16) -> Seq<RowView> {
    if rows.len() <= height {
        rows
    } else {
        rows.take(height as int)
    }
}

/// The lines of a task's text in `max` columns: wrapped when wider.
pub open spec fn wrapped(display: Seq<char>, max: nat) -> Seq<Seq<char>> {
    if unicode_str_width(display) > max {
        spec_wrap_text(display, max)
    } else {
        seq![display]
    }
}

/// Line `j` of a wrapped text: the continuation lines are indented by four
/// spaces.
pub open spec fn indented(lines: Seq<Seq<char>>, j: int) -> Seq<char> {
    if j == 0 {
        lines[0]
    } else {
        "    "@ + lines[j]
    }
}

/// Appends the commands of one row.
fn emit_row(
    ops: &mut Vec<DrawOp>,
    x: u16,
    y: u16,
    text: String,
    kind: RowKind,
    pad: usize,
    colors: &ColorScheme,
)
    ensures
        ops_view(final(ops)@) == ops_view(old(ops)@) + row_ops(
            x,
            y,
            RowView { text: text@, kind, pad: pad as nat },
            *colors,
        ),
{
    let ghost before = ops_view(ops@);
    let ghost t = text@;
    emit(ops, DrawOp::MoveTo(x, y));
    match kind {
        RowKind::Selected => {
            let mut line = text;
            line.append(repeat_space(pad).as_str());
            emit(ops, DrawOp::Bg(TermColor::Rgb(colors.selected_bg)));
            emit(ops, DrawOp::Fg(TermColor::Rgb(colors.selected_fg)));
            emit(ops, DrawOp::Print(line));
            emit(ops, DrawOp::Reset);
        },
        RowKind::InactiveSelected => {
            let mut line = text;
            line.append(repeat_space(pad).as_str());
            emit(ops, DrawOp::Bg(TermColor::Rgb(colors.inactive_selected_bg)));
            emit(ops, DrawOp::Fg(TermColor::Rgb(colors.inactive_selected_fg)));
            emit(ops, DrawOp::Print(line));
            emit(ops, DrawOp::Reset);
        },
        RowKind::Dim => {
            emit(ops, DrawOp::Fg(TermColor::DarkGrey));
            emit(ops, DrawOp::Print(text));
            emit(ops, DrawOp::Reset);
        },
        RowKind::Plain => {
            emit(ops, DrawOp::Fg(TermColor::White));
            emit(ops, DrawOp::Print(text));
            emit(ops, DrawOp::Reset);
        },
    }
    assert(ops_view(ops@) =~= before + row_ops(
        x,
        y,
        RowView { text: t, kind, pad: pad as nat },
        *colors,
    ));
}

/// Wraps a row text when it is wider than `max_width`.
fn wrap_display(display: String, max_width: usize) -> (res: Vec<String>)
    ensures
        strings_view(res@) == wrapped(display@, max_width as nat),
{
    if str_width(display.as_str()) > max_width {
        wrap_text(display.as_str(), max_width)
    } else {
        let mut v: Vec<String> = Vec::new();
        let ghost d = display@;
        v.push(display);
        assert(strings_view(v@) =~= seq![d]);
        v
    }
}

/// Line `j` of wrapped lines, indented when it is a continuation line.
fn indent_line(lines: &Vec<String>, j: usize) -> (res: String)
    requires
        j < lines@.len(),
    ensures
        res@ == indented(strings_view(lines@), j as int),
{
    if j == 0 {
        lines[0].clone()
    } else {
        let mut s = String::from_str("    ");
        s.append(lines[j].as_str());
        s
    }
}

// ---------------------------------------------------------------------------
// The task list (left pane)
// ---------------------------------------------------------------------------

/// The columns the task list's rows wrap at: the full width, or two less
/// on a split screen.
pub open spec fn list_width(s: AppView, width: u16) -> nat {
    if s.split_view {
        sat_sub(width as int, 2)
    } else {
        width as nat
    }
}

/// The text of the `i`-th task `t` of the list: a cursor mark, the check
/// box, the title, and " +" on an unsplit screen when it has sub-tasks.
pub open spec fn task_display(s: AppView, t: TaskView, i: int) -> Seq<char> {
    (if i == s.selected_index {
        "> "@
    } else {
        "  "@
    }) + (if t.completed {
        "[x]"@
    } else {
        "[ ]"@
    }) + " "@ + t.title + (if subtasks(s.tasks, t.id).len() > 0 && !s.split_view {
        " +"@
    } else {
        ""@
    })
}

/// How the rows of the `i`-th task `t` of the list are coloured.
pub open spec fn list_row_kind(s: AppView, t: TaskView, i: int) -> RowKind {
    if i == s.selected_index && !right_pane_active(s) {
        RowKind::Selected
    } else if i == s.selected_index {
        RowKind::InactiveSelected
    } else if s.filter_mode == FilterMode::Completed && !t.completed
        && crate::app::spec_has_completed_subtasks(s.tasks, t.id) {
        RowKind::Dim
    } else {
        RowKind::Plain
    }
}

/// A row of the list with `text`, coloured by `kind`; highlighted rows are
/// padded with spaces to `max` columns.
pub open spec fn padded_row(text: Seq<char>, kind: RowKind, max: nat) -> RowView {
    RowView {
        text,
        kind,
        pad: if kind == RowKind::Selected || kind == RowKind::InactiveSelected {
            sat_sub(max as int, unicode_str_width(text) as int)
        } else {
            0
        },
    }
}

/// The rows of the `i`-th task of the list.
pub open spec fn list_rows(s: AppView, width: u16) -> spec_fn(int) -> Seq<RowView> {
    |i: int|
        {
            let t = current_tasks(s)[i];
            let lines = wrapped(task_display(s, t, i), list_width(s, width));
            Seq::new(
                lines.len(),
                |j: int| padded_row(indented(lines, j), list_row_kind(s, t, i), list_width(s, width)),
            )
        }
}

/// The top row of the list pane: where the list is.
pub open spec fn list_title_ops(s: AppView) -> Seq<DrawOpView> {
    let colors = s.settings.colors;
    seq![DrawOpView::MoveTo(0, 0)] + match s.current_parent {
        Some(pid) => match first_with_id(s.tasks, pid) {
            Some(k) => seq![
                DrawOpView::Fg(TermColor::Rgb(colors.title_fg)),
                DrawOpView::Print("Subtasks of: "@ + s.tasks[k].title),
                DrawOpView::Reset,
            ],
            None => Seq::empty(),
        },
        None => seq![
            DrawOpView::Fg(TermColor::Rgb(colors.title_fg)),
            DrawOpView::Print("TODO List"@),
            DrawOpView::Reset,
        ],
    }
}

/// The column of the filter name in the list pane: at its right edge.
pub open spec fn list_filter_x(s: AppView, width: u16) -> u16 {
    sat_sub(
        width as int,
        byte_len(filter_label(s.filter_mode)) + if s.split_view {
            2int
        } else {
            1int
        },
    ) as u16
}

/// The list pane below its top row: a hint when the list is empty, else
/// the rows of its tasks, as many as fit in `height` rows.
pub open spec fn list_body_ops(s: AppView, width: u16, height: u16) -> Seq<DrawOpView> {
    let cur = current_tasks(s);
    let color = empty_view_color(!s.split_view || s.active_pane == Pane::Left, s.settings.colors);
    if cur.len() == 0 && s.current_parent is Some {
        empty_message_ops(0, color, "create (n)ew sub-task"@)
    } else if cur.len() == 0 {
        empty_message_ops(0, color, "create (n)ew task"@)
    } else {
        rows_ops(
            0,
            visible_rows(concat_rows(list_rows(s, width), cur.len()), height),
            s.settings.colors,
        )
    }
}

/// The whole list pane.
pub open spec fn list_pane_ops(s: AppView, width: u16, height: u16) -> Seq<DrawOpView> {
    list_title_ops(s) + filter_ops(list_filter_x(s, width), s) + list_body_ops(s, width, height)
}

/// The list pane of a `width`-column area with `height` rows for tasks.
#[verifier::rlimit(40)]
pub fn draw_parent_tasks(app: &App, ops: &mut Vec<DrawOp>, width: u16, height: u16)
    ensures
        ops_view(final(ops)@) == ops_view(old(ops)@) + list_pane_ops(app@, width, height),
{
    let ghost s = app@;
    let ghost start = ops_view(ops@);
    let current_tasks = app.get_current_tasks();
    let colors = &app.settings.colors;
    let is_split_and_active_right = app.split_view && app.active_pane == Pane::Right;
    emit(ops, DrawOp::MoveTo(0, 0));
    if let Some(parent_id) = &app.current_parent {
        if let Some(k) = app.find_task(parent_id) {
            let mut title = String::from_str("Subtasks of: ");
            title.append(app.tasks[k].title.as_str());
            emit(ops, DrawOp::Fg(TermColor::Rgb(colors.title_fg)));
            emit(ops, DrawOp::Print(title));
            emit(ops, DrawOp::Reset);
        }
    } else {
        emit(ops, DrawOp::Fg(TermColor::Rgb(colors.title_fg)));
        emit_str(ops, "TODO List");
        emit(ops, DrawOp::Reset);
    }
    assert(ops_view(ops@) =~= start + list_title_ops(s));
    let (filter_text, filter_color) = app.get_filter_display();
    let filter_pos = width.saturating_sub(
        filter_text.len() as u16 + if app.split_view {
            2
        } else {
            1
        },
    );
    emit(ops, DrawOp::MoveTo(filter_pos, 0));
    emit(ops, DrawOp::Fg(filter_color));
    emit_str(ops, filter_text);
    emit(ops, DrawOp::Reset);
    let ghost head = ops_view(ops@);
    assert(head =~= start + list_title_ops(s) + filter_ops(list_filter_x(s, width), s));
    if current_tasks.is_empty() && app.current_parent.is_some() {
        let is_active = !app.split_view || app.active_pane == Pane::Left;
        let fg_color = get_empty_view_color(is_active, colors);
        emit(ops, DrawOp::MoveTo(0, 1));
        emit(ops, DrawOp::Fg(fg_color));
        emit_str(ops, "create (n)ew sub-task");
        emit(ops, DrawOp::Reset);
        assert(ops_view(ops@) =~= head + list_body_ops(s, width, height));
    } else if current_tasks.is_empty() && app.current_parent.is_none() {
        let is_active = !app.split_view || app.active_pane == Pane::Left;
        let fg_color = get_empty_view_color(is_active, colors);
        emit(ops, DrawOp::MoveTo(0, 1));
        emit(ops, DrawOp::Fg(fg_color));
        emit_str(ops, "create (n)ew task");
        emit(ops, DrawOp::Reset);
        assert(ops_view(ops@) =~= head + list_body_ops(s, width, height));
    } else {
        let ghost f = list_rows(s, width);
        let ghost cur = crate::app::current_tasks(s);
        let n = current_tasks.len();
        let ghost all = concat_rows(f, n as nat);
        let max_width: usize = if app.split_view {
            (width as usize).saturating_sub(2)
        } else {
            width as usize
        };
        let mut current_line: u16 = 0;
        let mut i: usize = 0;
        assert(all.take(0) =~= Seq::<RowView>::empty());
        while i < n && current_line < height
            invariant
                s == app@,
                n == current_tasks@.len(),
                task_refs_view(current_tasks@) == cur,
                cur == crate::app::current_tasks(s),
                f == list_rows(s, width),
                all == concat_rows(f, n as nat),
                max_width as nat == list_width(s, width),
                is_split_and_active_right == right_pane_active(s),
                colors == &app.settings.colors,
                i <= n,
                current_line <= height,
                current_line <= concat_rows(f, i as nat).len(),
                current_line < height ==> current_line == concat_rows(f, i as nat).len(),
                concat_rows(f, i as nat).len() <= all.len(),
                ops_view(ops@) == head + rows_ops(0, all.take(current_line as int), *colors),
            decreases n - i,
        {
            let task: &Task = current_tasks[i];
            let ghost t = cur[i as int];
            assert(task@ == t);
            let selected = i == app.selected_index;
            let prefix = if selected {
                "> "
            } else {
                "  "
            };
            let status = if task.completed {
                "[x]"
            } else {
                "[ ]"
            };
            let has_subtasks = !app.get_subtasks(task.id.as_str()).is_empty();
            let indicator = if has_subtasks && !app.split_view {
                " +"
            } else {
                ""
            };
            let is_parent_with_completed_subtasks = app.filter_mode == FilterMode::Completed
                && !task.completed && app.has_completed_subtasks(task.id.as_str());
            let mut display = String::from_str(prefix);
            display.append(status);
            display.append(" ");
            display.append(task.title.as_str());
            display.append(indicator);
            assert(display@ == task_display(s, t, i as int));
            let wrapped_lines = wrap_display(display, max_width);
            let ghost lines = strings_view(wrapped_lines@);
            let ghost kind = list_row_kind(s, t, i as int);
            assert(f(i as int).len() == lines.len());
            proof {
                lemma_concat_rows_prefix(f, (i + 1) as nat, n as nat);
            }
            let mut j: usize = 0;
            while j < wrapped_lines.len() && current_line < height
                invariant
                    s == app@,
                    f == list_rows(s, width),
                    all == concat_rows(f, n as nat),
                    i < n,
                    t == crate::app::current_tasks(s)[i as int],
                    lines == strings_view(wrapped_lines@),
                    lines == wrapped(task_display(s, t, i as int), list_width(s, width)),
                    kind == list_row_kind(s, t, i as int),
                    selected == (i == s.selected_index),
                    is_parent_with_completed_subtasks == (s.filter_mode == FilterMode::Completed
                        && !t.completed && crate::app::spec_has_completed_subtasks(s.tasks, t.id)),
                    max_width as nat == list_width(s, width),
                    is_split_and_active_right == right_pane_active(s),
                    colors == &app.settings.colors,
                    f(i as int).len() == lines.len(),
                    j <= lines.len(),
                    current_line <= height,
                    current_line <= concat_rows(f, i as nat).len() + j,
                    current_line < height ==> current_line == concat_rows(f, i as nat).len() + j,
                    concat_rows(f, (i + 1) as nat).len() <= all.len(),
                    concat_rows(f, (i + 1) as nat) == concat_rows(f, i as nat) + f(i as int),
                    ops_view(ops@) == head + rows_ops(0, all.take(current_line as int), *colors),
                decreases lines.len() - j,
            {
                let display_text = indent_line(&wrapped_lines, j);
                let text_width = str_width(display_text.as_str());
                let (kind_now, pad): (RowKind, usize) = if selected && !is_split_and_active_right {
                    let pad = if app.split_view {
                        max_width.saturating_sub(text_width)
                    } else {
                        (width as usize).saturating_sub(text_width)
                    };
                    (RowKind::Selected, pad)
                } else if selected && is_split_and_active_right {
                    (RowKind::InactiveSelected, max_width.saturating_sub(text_width))
                } else if is_parent_with_completed_subtasks {
                    (RowKind::Dim, 0)
                } else {
                    (RowKind::Plain, 0)
                };
                proof {
                    lemma_concat_rows_index(f, i as nat, j as int, n as nat);
                    assert(f(i as int)[j as int] == padded_row(
                        indented(lines, j as int),
                        kind,
                        list_width(s, width),
                    ));
                    assert(all[current_line as int] == (RowView {
                        text: display_text@,
                        kind: kind_now,
                        pad: pad as nat,
                    }));
                    let tk = all.take(current_line as int + 1);
                    assert(tk.drop_last() =~= all.take(current_line as int));
                    assert(tk.last() == all[current_line as int]);
                }
                emit_row(ops, 0, current_line + 1, display_text, kind_now, pad, colors);
                current_line = current_line + 1;
                j = j + 1;
            }
            i = i + 1;
        }
        proof {
            if current_line < height {
                assert(i == n);
                assert(all.take(current_line as int) =~= all);
                assert(visible_rows(all, height) == all.take(current_line as int));
            } else {
                assert(current_line == height);
                if all.len() <= height {
                    assert(all.take(current_line as int) =~= all);
                }
                assert(visible_rows(all, height) == all.take(current_line as int));
            }
            assert(cur.len() == n);
            assert(cur.len() > 0);
        }
        assert(ops_view(ops@) =~= head + list_body_ops(s, width, height));
    }
}

// ---------------------------------------------------------------------------
// The sub-task pane (right pane)
// ---------------------------------------------------------------------------

/// The column where the sub-task pane's divider stands: half the width.
pub open spec fn split_col(width: u16) -> u16 {
    (width / 2) as u16
}

/// The columns the sub-task pane's rows wrap at.
pub open spec fn sub_width(width: u16) -> nat {
    sat_sub(width as int - split_col(width) as int, 2)
}

/// The text of the `i`-th sub-task `t` of the pane: a cursor mark, the
/// check box and the title.
pub open spec fn sub_display(s: AppView, t: TaskView, i: int) -> Seq<char> {
    (if i == s.right_pane_selected_index {
        "> "@
    } else {
        "  "@
    }) + (if t.completed {
        "[x]"@
    } else {
        "[ ]"@
    }) + " "@ + t.title
}

/// How the rows of the `i`-th sub-task are coloured: highlighted when it is
/// under the cursor of the active sub-task pane.
pub open spec fn sub_row_kind(s: AppView, i: int) -> RowKind {
    if s.active_pane == Pane::Right && i == s.right_pane_selected_index {
        RowKind::Selected
    } else {
        RowKind::Plain
    }
}

/// The rows of the `i`-th sub-task of `subs`.
pub open spec fn sub_rows(s: AppView, width: u16, subs: Seq<TaskView>) -> spec_fn(int) -> Seq<RowView> {
    |i: int|
        {
            let lines = wrapped(sub_display(s, subs[i], i), sub_width(width));
            Seq::new(
                lines.len(),
                |j: int| padded_row(indented(lines, j), sub_row_kind(s, i), sub_width(width)),
            )
        }
}

/// The column of the filter name in the sub-task pane: at its right edge.
pub open spec fn sub_filter_x(s: AppView, width: u16) -> u16 {
    (split_col(width) + 1 + sat_sub(
        width as int - split_col(width) as int - 1,
        byte_len(filter_label(s.filter_mode)) + 1,
    )) as u16
}

/// The sub-tasks the pane shows: those of the task selected in the list.
pub open spec fn pane_subtasks(s: AppView) -> Seq<TaskView> {
    match selected_task(s) {
        Some(p) => filtered_subtasks(s.tasks, p.id, s.filter_mode),
        None => Seq::empty(),
    }
}

/// The screen is wide enough for the sub-task pane: at least one column,
/// and three when it has sub-tasks to list.
pub open spec fn subtask_pane_fits(s: AppView, width: u16) -> bool {
    &&& width >= 1
    &&& pane_subtasks(s).len() > 0 ==> width >= 3
}

/// The sub-task pane below its top row: a hint when no task is selected in
/// the list or it has no sub-tasks to show, else the rows of its sub-tasks,
/// as many as fit in `height` rows.
pub open spec fn sub_body_ops(s: AppView, width: u16, height: u16) -> Seq<DrawOpView> {
    let x = (split_col(width) + 2) as u16;
    let color = empty_view_color(s.active_pane == Pane::Right, s.settings.colors);
    match selected_task(s) {
        Some(p) => {
            let subs = pane_subtasks(s);
            if subs.len() == 0 {
                empty_message_ops(x, color, "create (n)ew sub-task"@)
            } else {
                rows_ops(
                    x,
                    visible_rows(concat_rows(sub_rows(s, width, subs), subs.len()), height),
                    s.settings.colors,
                )
            }
        },
        None => empty_message_ops(x, color, "select task on left pane"@),
    }
}

/// The whole sub-task pane.
pub open spec fn sub_pane_ops(s: AppView, width: u16, height: u16) -> Seq<DrawOpView> {
    title_ops((split_col(width) + 1) as u16, "Subtasks"@, s.settings.colors) + filter_ops(
        sub_filter_x(s, width),
        s,
    ) + sub_body_ops(s, width, height)
}

/// The sub-task pane in the right half of a `width`-column screen, with
/// `height` rows for sub-tasks.
#[verifier::rlimit(40)]
pub fn draw_subtasks(app: &App, ops: &mut Vec<DrawOp>, width: u16, height: u16)
    requires
        subtask_pane_fits(app@, width),
    ensures
        ops_view(final(ops)@) == ops_view(old(ops)@) + sub_pane_ops(app@, width, height),
{
    let ghost s = app@;
    let ghost start = ops_view(ops@);
    let split_x: u16 = width / 2;
    let parent_tasks = app.get_current_tasks();
    let colors = &app.settings.colors;
    emit_title(ops, split_x + 1, "Subtasks", colors);
    let (filter_text, filter_color) = app.get_filter_display();
    let right_pane_width: u16 = width - split_x - 1;
    let filter_pos: u16 = split_x + 1 + right_pane_width.saturating_sub(filter_text.len() as u16 + 1);
    emit(ops, DrawOp::MoveTo(filter_pos, 0));
    emit(ops, DrawOp::Fg(filter_color));
    emit_str(ops, filter_text);
    emit(ops, DrawOp::Reset);
    let ghost head = ops_view(ops@);
    assert(head =~= start + title_ops((split_col(width) + 1) as u16, "Subtasks"@, *colors)
        + filter_ops(sub_filter_x(s, width), s));
    if !parent_tasks.is_empty() && app.selected_index < parent_tasks.len() {
        let selected_task_id = &parent_tasks[app.selected_index].id;
        let subtasks = app.get_filtered_subtasks(selected_task_id.as_str());
        let ghost subs = pane_subtasks(s);
        assert(task_refs_view(subtasks@) == subs);
        if subtasks.is_empty() {
            let is_active = app.active_pane == Pane::Right;
            let fg_color = get_empty_view_color(is_active, colors);
            emit(ops, DrawOp::MoveTo(split_x + 2, 1));
            emit(ops, DrawOp::Fg(fg_color));
            emit_str(ops, "create (n)ew sub-task");
            emit(ops, DrawOp::Reset);
            assert(ops_view(ops@) =~= head + sub_body_ops(s, width, height));
        } else {
            let ghost f = sub_rows(s, width, subs);
            let n = subtasks.len();
            let ghost all = concat_rows(f, n as nat);
            let right_pane_width: u16 = width - split_x - 2;
            let max_width = right_pane_width as usize;
            let x: u16 = split_x + 2;
            let mut current_line: u16 = 0;
            let mut i: usize = 0;
            assert(all.take(0) =~= Seq::<RowView>::empty());
            while i < n && current_line < height
                invariant
                    s == app@,
                    n == subtasks@.len(),
                    task_refs_view(subtasks@) == subs,
                    subs == pane_subtasks(s),
                    f == sub_rows(s, width, subs),
                    all == concat_rows(f, n as nat),
                    max_width as nat == sub_width(width),
                    x == (split_col(width) + 2) as u16,
                    colors == &app.settings.colors,
                    i <= n,
                    current_line <= height,
                    current_line <= concat_rows(f, i as nat).len(),
                    current_line < height ==> current_line == concat_rows(f, i as nat).len(),
                    concat_rows(f, i as nat).len() <= all.len(),
                    ops_view(ops@) == head + rows_ops(x, all.take(current_line as int), *colors),
                decreases n - i,
            {
                let task: &Task = subtasks[i];
                let ghost t = subs[i as int];
                assert(task@ == t);
                let selected = app.active_pane == Pane::Right && i == app.right_pane_selected_index;
                let prefix = if i == app.right_pane_selected_index {
                    "> "
                } else {
                    "  "
                };
                let status = if task.completed {
                    "[x]"
                } else {
                    "[ ]"
                };
                let mut display = String::from_str(prefix);
                display.append(status);
                display.append(" ");
                display.append(task.title.as_str());
                assert(display@ == sub_display(s, t, i as int));
                let wrapped_lines = wrap_display(display, max_width);
                let ghost lines = strings_view(wrapped_lines@);
                assert(f(i as int).len() == lines.len());
                proof {
                    lemma_concat_rows_prefix(f, (i + 1) as nat, n as nat);
                }
                let mut j: usize = 0;
                while j < wrapped_lines.len() && current_line < height
                    invariant
                        s == app@,
                        subs == pane_subtasks(s),
                        f == sub_rows(s, width, subs),
                        all == concat_rows(f, n as nat),
                        i < n,
                        t == subs[i as int],
                        lines == strings_view(wrapped_lines@),
                        lines == wrapped(sub_display(s, t, i as int), sub_width(width)),
                        selected == (sub_row_kind(s, i as int) == RowKind::Selected),
                        max_width as nat == sub_width(width),
                        x == (split_col(width) + 2) as u16,
                        colors == &app.settings.colors,
                        f(i as int).len() == lines.len(),
                        j <= lines.len(),
                        current_line <= height,
                        current_line <= concat_rows(f, i as nat).len() + j,
                        current_line < height ==> current_line == concat_rows(f, i as nat).len() + j,
                        concat_rows(f, (i + 1) as nat).len() <= all.len(),
                        concat_rows(f, (i + 1) as nat) == concat_rows(f, i as nat) + f(i as int),
                        ops_view(ops@) == head + rows_ops(x, all.take(current_line as int), *colors),
                    decreases lines.len() - j,
                {
                    let display_text = indent_line(&wrapped_lines, j);
                    let (kind_now, pad): (RowKind, usize) = if selected {
                        (RowKind::Selected, max_width.saturating_sub(str_width(display_text.as_str())))
                    } else {
                        (RowKind::Plain, 0)
                    };
                    proof {
                        lemma_concat_rows_index(f, i as nat, j as int, n as nat);
                        assert(f(i as int)[j as int] == padded_row(
                            indented(lines, j as int),
                            sub_row_kind(s, i as int),
                            sub_width(width),
                        ));
                        assert(all[current_line as int] == (RowView {
                            text: display_text@,
                            kind: kind_now,
                            pad: pad as nat,
                        }));
                        let tk = all.take(current_line as int + 1);
                        assert(tk.drop_last() =~= all.take(current_line as int));
                        assert(tk.last() == all[current_line as int]);
                    }
                    emit_row(ops, x, current_line + 1, display_text, kind_now, pad, colors);
                    current_line = current_line + 1;
                    j = j + 1;
                }
                i = i + 1;
            }
            proof {
                if current_line < height {
                    assert(i == n);
                    assert(all.take(current_line as int) =~= all);
                    assert(visible_rows(all, height) == all.take(current_line as int));
                } else {
                    if all.len() <= height {
                        assert(all.take(current_line as int) =~= all);
                    }
                    assert(visible_rows(all, height) == all.take(current_line as int));
                }
            }
            assert(ops_view(ops@) =~= head + sub_body_ops(s, width, height));
        }
    } else {
        let is_active = app.active_pane == Pane::Right;
        let fg_color = get_empty_view_color(is_active, colors);
        emit(ops, DrawOp::MoveTo(split_x + 2, 1));
        emit(ops, DrawOp::Fg(fg_color));
        emit_str(ops, "select task on left pane");
        emit(ops, DrawOp::Reset);
        assert(ops_view(ops@) =~= head + sub_body_ops(s, width, height));
    }
}

// ---------------------------------------------------------------------------
// The whole screen
// ---------------------------------------------------------------------------

/// The sub-task pane is drawn: the screen is split and not showing the
/// manual in the right half.
pub open spec fn draws_subtask_pane(s: AppView) -> bool {
    s.split_view && !(s.input_mode == InputMode::Help && s.active_pane == Pane::Left)
}

/// The screen is wide enough for what it shows.
pub open spec fn spec_screen_fits(s: AppView, width: u16) -> bool {
    draws_subtask_pane(s) ==> subtask_pane_fits(s, width)
}

/// The commands that draw the whole `width` x `height` screen: clear it;
/// the manual on the whole screen, or the list pane (with, when split, the
/// divider and the sub-task pane or the manual in the inactive half); then
/// the bottom area.
pub open spec fn screen_ops(s: AppView, width: u16, height: u16) -> Seq<DrawOpView> {
    let ch = bar_row(height);
    let half = (width / 2) as u16;
    let colors = s.settings.colors;
    let middle = if s.input_mode == InputMode::Help && !s.split_view {
        help_full_ops(s, height)
    } else if s.input_mode == InputMode::Help {
        if s.active_pane == Pane::Left {
            list_pane_ops(s, half, ch) + divider_cells(half, ch as nat + 1, colors)
                + help_pane_ops(s, width, ch)
        } else {
            help_pane_ops(s, half, ch) + divider_cells(half, ch as nat + 1, colors)
                + sub_pane_ops(s, width, ch)
        }
    } else if s.split_view {
        list_pane_ops(s, half, ch) + divider_cells(half, ch as nat + 1, colors) + sub_pane_ops(
            s,
            width,
            ch,
        )
    } else {
        list_pane_ops(s, width, ch)
    };
    seq![DrawOpView::ClearAll] + middle + bottom_ops(s, width, height)
}

impl App {
    /// Whether a `width`-column screen is wide enough for what the screen
    /// shows now (the sub-task pane needs at least one column, three when
    /// it lists sub-tasks).
    pub fn screen_fits(&self, width: u16) -> (res: bool)
        ensures
            res == spec_screen_fits(self@, width),
    {
        if !(self.split_view && !(self.input_mode == InputMode::Help && self.active_pane
            == Pane::Left)) {
            return true;
        }
        if width < 1 {
            return false;
        }
        let parent_tasks = self.get_current_tasks();
        if !parent_tasks.is_empty() && self.selected_index < parent_tasks.len() {
            let selected_task_id = &parent_tasks[self.selected_index].id;
            let subtasks = self.get_filtered_subtasks(selected_task_id.as_str());
            subtasks.is_empty() || width >= 3
        } else {
            true
        }
    }
}

/// Draws the whole `width` x `height` screen.
pub fn draw(app: &App, ops: &mut Vec<DrawOp>, width: u16, height: u16)
    requires
        spec_screen_fits(app@, width),
    ensures
        ops_view(final(ops)@) == ops_view(old(ops)@) + screen_ops(app@, width, height),
{
    let ghost start = ops_view(ops@);
    emit(ops, DrawOp::ClearAll);
    let content_height = height.saturating_sub(2);
    if app.input_mode == InputMode::Help && !app.split_view {
        draw_help_full(app, ops, width, height);
    } else if app.input_mode == InputMode::Help && app.split_view {
        if app.active_pane == Pane::Left {
            draw_parent_tasks(app, ops, width / 2, content_height);
            draw_split_divider(ops, width / 2, content_height, &app.settings.colors);
            draw_help_pane(app, ops, width, content_height);
        } else {
            draw_help_pane(app, ops, width / 2, content_height);
            draw_split_divider(ops, width / 2, content_height, &app.settings.colors);
            draw_subtasks(app, ops, width, content_height);
        }
    } else {
        draw_parent_tasks(
            app,
            ops,
            if app.split_view {
                width / 2
            } else {
                width
            },
            content_height,
        );
        if app.split_view {
            draw_split_divider(ops, width / 2, content_height, &app.settings.colors);
            draw_subtasks(app, ops, width, content_height);
        }
    }
    draw_bottom_area(app, ops, width, height);
    assert(ops_view(ops@) =~= start + screen_ops(app@, width, height));
}

} // verus!
