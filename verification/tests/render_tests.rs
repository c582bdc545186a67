use terdo::app::App;
use terdo::model::{ColorScheme, FilterMode, InputMode, Pane, RgbColor, Settings, Task, TermColor};
use terdo::render::{
    draw, draw_bottom_area, draw_help_full, draw_help_pane, draw_parent_tasks, draw_split_divider,
    draw_subtasks, get_empty_view_color, help_full_line, help_pane_line, DrawOp,
};

fn task(id: &str, title: &str, completed: bool, parent: Option<&str>) -> Task {
    Task {
        id: id.to_string(),
        title: title.to_string(),
        completed,
        parent_id: parent.map(|p| p.to_string()),
    }
}

fn sample() -> App {
    App::new(
        vec![
            task("a", "Shopping", false, None),
            task("b", "Milk", true, Some("a")),
            task("c", "Eggs", false, Some("a")),
            task("d", "Taxes", true, None),
            task("e", "Report", false, None),
        ],
        Settings::default(),
    )
}

fn rgb(r: u8, g: u8, b: u8) -> TermColor {
    TermColor::Rgb(RgbColor { r, g, b })
}

fn print(s: &str) -> DrawOp {
    DrawOp::Print(s.to_string())
}

#[test]
fn default_colours() {
    let c = ColorScheme::default();
    assert_eq!(c.selected_bg, RgbColor { r: 173, g: 216, b: 230 });
    assert_eq!(c.delete_fg, RgbColor { r: 178, g: 34, b: 34 });
    assert_eq!(c.empty_view_fg, RgbColor { r: 160, g: 240, b: 160 });
    let s = Settings::default();
    assert_eq!(s.colors, c);
    assert!(!s.split_view);
}

#[test]
fn empty_view_colour() {
    let c = ColorScheme::default();
    assert_eq!(get_empty_view_color(true, &c), rgb(160, 240, 160));
    assert_eq!(get_empty_view_color(false, &c), TermColor::DarkGrey);
}

#[test]
fn filter_display() {
    let mut app = sample();
    assert_eq!(app.get_filter_display(), ("unfinished", rgb(255, 255, 153)));
    app.filter_mode = FilterMode::Completed;
    assert_eq!(app.get_filter_display(), ("completed", rgb(144, 238, 144)));
    app.filter_mode = FilterMode::All;
    assert_eq!(app.get_filter_display(), ("all task", rgb(173, 216, 230)));
}

#[test]
fn divider_is_a_column_of_bars() {
    let mut ops = Vec::new();
    draw_split_divider(&mut ops, 5, 1, &ColorScheme::default());
    let fg = DrawOp::Fg(rgb(169, 169, 169));
    assert_eq!(
        ops,
        vec![
            DrawOp::MoveTo(5, 0),
            fg.clone_op(),
            print("│"),
            DrawOp::Reset,
            DrawOp::MoveTo(5, 1),
            fg,
            print("│"),
            DrawOp::Reset,
        ]
    );
}

trait CloneOp {
    fn clone_op(&self) -> DrawOp;
}

impl CloneOp for DrawOp {
    fn clone_op(&self) -> DrawOp {
        match self {
            DrawOp::Fg(c) => DrawOp::Fg(*c),
            DrawOp::Bg(c) => DrawOp::Bg(*c),
            DrawOp::MoveTo(x, y) => DrawOp::MoveTo(*x, *y),
            DrawOp::Print(s) => DrawOp::Print(s.clone()),
            DrawOp::Reset => DrawOp::Reset,
            DrawOp::ClearAll => DrawOp::ClearAll,
            DrawOp::ClearLine => DrawOp::ClearLine,
        }
    }
}

#[test]
fn list_pane_of_the_top_level() {
    let app = sample();
    let mut ops = Vec::new();
    draw_parent_tasks(&app, &mut ops, 30, 10);
    assert_eq!(
        ops,
        vec![
            DrawOp::MoveTo(0, 0),
            DrawOp::Fg(rgb(80, 184, 255)),
            print("TODO List"),
            DrawOp::Reset,
            DrawOp::MoveTo(19, 0),
            DrawOp::Fg(rgb(255, 255, 153)),
            print("unfinished"),
            DrawOp::Reset,
            DrawOp::MoveTo(0, 1),
            DrawOp::Bg(rgb(173, 216, 230)),
            DrawOp::Fg(rgb(40, 40, 40)),
            print("> [ ] Shopping +              "),
            DrawOp::Reset,
            DrawOp::MoveTo(0, 2),
            DrawOp::Fg(TermColor::White),
            print("  [ ] Report"),
            DrawOp::Reset,
        ]
    );
}

#[test]
fn list_rows_wrap_and_stop_at_the_height() {
    let app = App::new(
        vec![task("x", "abcdefghij", false, None), task("y", "second", false, None)],
        Settings::default(),
    );
    let mut ops = Vec::new();
    draw_parent_tasks(&app, &mut ops, 8, 2);
    let printed: Vec<String> = ops
        .iter()
        .filter_map(|o| match o {
            DrawOp::Print(s) => Some(s.clone()),
            _ => None,
        })
        .collect();
    assert_eq!(printed, vec!["TODO List", "unfinished", "> [ ] ab", "    cdefghij"]);
}

#[test]
fn list_pane_when_empty() {
    let mut app = App::new(vec![], Settings::default());
    let mut ops = Vec::new();
    draw_parent_tasks(&app, &mut ops, 30, 10);
    assert_eq!(ops[8..].to_vec_ops(), vec![
        DrawOp::MoveTo(0, 1),
        DrawOp::Fg(rgb(160, 240, 160)),
        print("create (n)ew task"),
        DrawOp::Reset,
    ]);
    app.current_parent = Some("gone".to_string());
    let mut ops = Vec::new();
    draw_parent_tasks(&app, &mut ops, 30, 10);
    assert_eq!(ops[0], DrawOp::MoveTo(0, 0));
    assert_eq!(ops[1], DrawOp::MoveTo(19, 0));
    assert_eq!(ops[5..].to_vec_ops(), vec![
        DrawOp::MoveTo(0, 1),
        DrawOp::Fg(rgb(160, 240, 160)),
        print("create (n)ew sub-task"),
        DrawOp::Reset,
    ]);
}

trait ToVecOps {
    fn to_vec_ops(&self) -> Vec<DrawOp>;
}

impl ToVecOps for [DrawOp] {
    fn to_vec_ops(&self) -> Vec<DrawOp> {
        self.iter().map(|o| o.clone_op()).collect()
    }
}

#[test]
fn sublist_title_names_the_parent() {
    let mut app = sample();
    app.current_parent = Some("a".to_string());
    let mut ops = Vec::new();
    draw_parent_tasks(&app, &mut ops, 40, 5);
    assert_eq!(ops[2], print("Subtasks of: Shopping"));
}

#[test]
fn completed_filter_dims_unfinished_parents() {
    let mut app = sample();
    app.filter_mode = FilterMode::Completed;
    app.selected_index = 1;
    let mut ops = Vec::new();
    draw_parent_tasks(&app, &mut ops, 40, 5);
    assert!(ops.contains(&DrawOp::Fg(TermColor::DarkGrey)));
    assert!(ops.contains(&print("  [ ] Shopping +")));
}

#[test]
fn subtask_pane_lists_the_selected_tasks_subtasks() {
    let mut app = sample();
    app.split_view = true;
    app.active_pane = Pane::Right;
    app.filter_mode = FilterMode::All;
    let mut ops = Vec::new();
    draw_subtasks(&app, &mut ops, 40, 10);
    assert_eq!(
        ops,
        vec![
            DrawOp::MoveTo(21, 0),
            DrawOp::Fg(rgb(80, 184, 255)),
            print("Subtasks"),
            DrawOp::Reset,
            DrawOp::MoveTo(31, 0),
            DrawOp::Fg(rgb(173, 216, 230)),
            print("all task"),
            DrawOp::Reset,
            DrawOp::MoveTo(22, 1),
            DrawOp::Bg(rgb(173, 216, 230)),
            DrawOp::Fg(rgb(40, 40, 40)),
            print("> [x] Milk        "),
            DrawOp::Reset,
            DrawOp::MoveTo(22, 2),
            DrawOp::Fg(TermColor::White),
            print("  [ ] Eggs"),
            DrawOp::Reset,
        ]
    );
}

#[test]
fn subtask_pane_hints() {
    let mut app = App::new(vec![], Settings::default());
    app.split_view = true;
    let mut ops = Vec::new();
    draw_subtasks(&app, &mut ops, 40, 10);
    assert_eq!(ops[9], DrawOp::Fg(TermColor::DarkGrey));
    assert_eq!(ops[10], print("select task on left pane"));
    let mut app = sample();
    app.split_view = true;
    app.selected_index = 1;
    let mut ops = Vec::new();
    draw_subtasks(&app, &mut ops, 40, 10);
    assert_eq!(ops[10], print("create (n)ew sub-task"));
}

#[test]
fn bottom_area_shows_the_key_help() {
    let app = sample();
    let mut ops = Vec::new();
    draw_bottom_area(&app, &mut ops, 20, 10);
    assert_eq!(
        ops,
        vec![
            DrawOp::MoveTo(0, 8),
            DrawOp::ClearLine,
            DrawOp::MoveTo(0, 8),
            DrawOp::Bg(rgb(169, 169, 169)),
            DrawOp::Fg(rgb(0, 0, 0)),
            print("Quick Help          "),
            DrawOp::Reset,
            DrawOp::MoveTo(0, 9),
            print("(m)anual | (n)ew ..."),
        ]
    );
}

#[test]
fn bottom_area_while_adding() {
    let mut app = sample();
    app.input_mode = InputMode::Adding;
    app.input_buffer = "abcdefghij".to_string();
    let mut ops = Vec::new();
    draw_bottom_area(&app, &mut ops, 8, 3);
    assert_eq!(ops[0], DrawOp::MoveTo(0, 1));
    assert_eq!(ops[5], print("New Task [Enter: Save, Esc: Cancel]"));
    assert_eq!(ops[8], print("> abcdef"));
    app.current_parent = Some("a".to_string());
    let mut ops = Vec::new();
    draw_bottom_area(&app, &mut ops, 41, 3);
    assert_eq!(ops[5], print("New Sub-task [Enter: Save, Esc: Cancel]  "));
    assert_eq!(ops[8], print("> abcdefghij"));
}

#[test]
fn bottom_area_while_editing_and_in_help() {
    let mut app = sample();
    app.input_mode = InputMode::Editing;
    app.input_buffer = "x".to_string();
    let mut ops = Vec::new();
    draw_bottom_area(&app, &mut ops, 40, 3);
    assert_eq!(ops[5], print("Edit Task [Enter: Save, Esc: Cancel]  "));
    assert_eq!(ops[8], print("> x"));
    app.input_mode = InputMode::Help;
    let mut ops = Vec::new();
    draw_bottom_area(&app, &mut ops, 12, 3);
    assert_eq!(ops[5], print("Quick Help  "));
    assert_eq!(ops[8], print("Press (m) to close help"));
}

#[test]
fn bottom_area_asks_before_deleting() {
    let mut app = sample();
    app.start_deleting();
    let mut ops = Vec::new();
    draw_bottom_area(&app, &mut ops, 20, 3);
    assert_eq!(
        ops,
        vec![
            DrawOp::MoveTo(0, 1),
            DrawOp::ClearLine,
            DrawOp::MoveTo(0, 1),
            DrawOp::Bg(rgb(180, 80, 80)),
            print("delete Shopping     "),
            DrawOp::Reset,
            DrawOp::MoveTo(0, 2),
            print("> "),
            DrawOp::Fg(rgb(178, 34, 34)),
            print("(Y)es"),
            DrawOp::Reset,
            print(" / (N)o"),
        ]
    );
    let mut ops = Vec::new();
    draw_bottom_area(&app, &mut ops, 12, 3);
    assert_eq!(ops[4], print("delete Sh..."));
}

#[test]
fn manual_on_the_whole_screen() {
    let app = sample();
    let mut ops = Vec::new();
    draw_help_full(&app, &mut ops, 80, 4);
    assert_eq!(
        ops,
        vec![
            DrawOp::MoveTo(0, 0),
            DrawOp::Fg(rgb(80, 184, 255)),
            print("Manual"),
            DrawOp::Reset,
            DrawOp::MoveTo(2, 1),
            print(""),
            DrawOp::MoveTo(2, 2),
            print("Manual: TerDO の使い方"),
            DrawOp::MoveTo(2, 3),
            print(""),
        ]
    );
    let mut ops = Vec::new();
    draw_help_full(&app, &mut ops, 80, 100);
    assert_eq!(ops.len(), 4 + 2 * 22);
}

#[test]
fn manual_in_a_pane_is_cut_to_its_width() {
    let app = sample();
    let mut ops = Vec::new();
    draw_help_pane(&app, &mut ops, 20, 3);
    assert_eq!(
        ops,
        vec![
            DrawOp::MoveTo(11, 0),
            DrawOp::Fg(rgb(80, 184, 255)),
            print("Manual"),
            DrawOp::Reset,
            DrawOp::MoveTo(12, 1),
            print(""),
            DrawOp::MoveTo(12, 2),
            print("Manual:"),
        ]
    );
}

#[test]
fn whole_screen() {
    let app = sample();
    assert!(app.screen_fits(30));
    let mut ops = Vec::new();
    draw(&app, &mut ops, 30, 10);
    assert_eq!(ops[0], DrawOp::ClearAll);
    assert_eq!(ops[3], print("TODO List"));
    assert!(ops.contains(&print("  [ ] Report")));
    assert_eq!(ops.last(), Some(&print("(m)anual | (n)ew | [k]prev ...")));
}

#[test]
fn split_screen_needs_room_for_subtasks() {
    let mut app = sample();
    app.split_view = true;
    assert!(app.screen_fits(3));
    assert!(!app.screen_fits(2));
    assert!(!app.screen_fits(0));
    app.selected_index = 1;
    assert!(app.screen_fits(1));
    let mut ops = Vec::new();
    draw(&app, &mut ops, 40, 6);
    assert!(ops.contains(&print("│")));
    assert!(ops.contains(&print("Subtasks")));
}

#[test]
fn manual_lines_past_the_end_are_empty() {
    assert_eq!(help_full_line(1), "Manual: TerDO の使い方");
    assert_eq!(help_full_line(30), "");
    assert_eq!(help_pane_line(4), "  A - all: 全てのタスクを表示");
    assert_eq!(help_pane_line(99), "");
}
