# mirante

The verified core of a terminal Kubernetes browser: the YAML editor (text editing on lines,
undo and redo, search, re-highlighting windows), the content viewer with its selection and edit
modes, the terminal input encoding of the interactive shell, and smaller pieces of the list and
describe views (filter pattern items, table cells and rows, port forward rows, the list header's
sort symbols, resource summaries and selector texts, describe scrolling, path checks and
normalisation). Drawing is split in two: the library computes which cells a widget colours
(search matches, the selection, the edit cursor, the list header), and the program paints them.

The functions in `src/` are proved against their `requires`/`ensures` contracts, except a few
thin wrappers around std (`String::push`, `char::to_uppercase`, hashing a `Vec<String>`, and the
monotonic clock with its `Duration` conversions), whose contracts are taken on trust; those of the
clock and the durations promise nothing about their results. The contracts speak of mathematical
models:

- `text`: lines as `Seq<Seq<char>>`; `lines_after_removal`, `removed_lines`, `lines_after_insert`
  and `position_after_insert` say what removing and inserting a range does.
- `yaml`: `ContentModel` (lines, modified lines, tracked longest line) and one `model_*` function
  per edit; `replay` says what undoing or redoing one history entry does, and `history_after`
  what an edit leaves on the undo and redo stacks.
- `selection`, `edit`, `viewer`: the states of the selection, the edit cursor and the viewer, with
  one function per event saying what it does to them.
- `terminal`: the bytes sent for a key or mouse action (`key_bytes`, `mouse_bytes`) and the terminal
  modes found in output (`modes_from`).
- `values`: texts in code point order (`text_le`); `sorted_texts` is the unique sorted arrangement
  of a collection of texts, which the selector and map texts are built from.
- `list_header`: the scan over a list header that finds each column's sort symbol (`scan_state`).
- `describe_builder` and the `*_describe` modules (pods, services, nodes, persistent volumes):
  the lines of describe sections as spans with roles (`BuilderState`, `with_line`), built from
  the resource's values read into plain structs; whoever draws them picks a colour per role.

The event handling of the views built on other components (`yaml_view`, `forwards_view`,
`list_viewer`, `picker`, `resource_table`, `logs_observer`) is written as decision functions:
they take the view's state as plain values, which key commands the event is bound to, and the
answers of the components asked so far, and name the next step; the program performs it.

`src/laws.rs` states and proves properties that relate several operations, such as that undoing
an edit gives back the lines as they were, and that scrolling to a line shows it.

`app/` is a small terminal program around the library (crossterm and ratatui): it reads a YAML
file, converts terminal events into the library's events, and draws the viewer's page.
`tests/` exercises the library on concrete values.
