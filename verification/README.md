# terdo

A terminal to-do list with sub-tasks, filters and a split view, whose
logic is verified with Verus.

- `src/model.rs`: colours, settings, tasks, and the modes of the screen.
- `src/app.rs`: the screen state (`App`), its abstract view (`AppView`),
  what the list shows, and the operations: add, edit, delete, complete,
  move, open and leave sub-lists. Each operation's contract is an exact
  transition over `AppView`.
- `src/keys.rs`: the key bindings as transitions, with the action the
  front end must take (quit, save tasks, save settings).
- `src/text.rs`: blank detection, display widths, wrapping and cutting.
- `src/render.rs`: the screen as a list of drawing commands.
- `src/laws.rs`: properties that span operations.
- `app/main.rs`: files (`~/.config/terdo/setting.toml`, `tasks.csv`), the
  terminal and the event loop.

Keys: `q` quit, `n` new task, `k`/Up and `j`/Down move, `e` edit, `d` delete
(`y` confirms), Space or `t` toggles completion, Enter/`l`/Right open the sub-list,
Backspace/`h`/Left go back, `u`/`c`/`a` filter unfinished/completed/all,
`|` split the screen, `m` shows or hides the manual.
