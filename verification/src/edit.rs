use std::time::{Duration, Instant};
use vstd::prelude::*;

use crate::content::Content;
use crate::events::{ctrl_key, is_ctrl_key, KeyCode, KeyCombination, KeyModifiers, MouseEvent, MouseEventKind, ResponseEvent, TuiEvent};
use crate::position::{sat_add, sat_sub, sat_sub16, ContentPosition, Rect, ScreenPosition};
use crate::selection::{in_order, min_usize, ordered, Selection};
use crate::text::removal_allowed;
use crate::undo::{elapsed, instant_now};
use crate::undo::UndoMode;
use crate::yaml::{
    history_after, lemma_history_none, lemma_history_push, lemma_history_then, leading_space_count, model_insert_char,
    model_remove_char, model_remove_text, model_removed_text, model_swap, ContentModel, EntryShape, YamlContent,
};

verus! {

/// Calls `Duration::as_millis`. `Duration` is opaque here, so nothing is stated about the result.
#[verifier::external_body]
fn as_millis(duration: &Duration) -> u128 {
    duration.as_millis()
}

/// A requested cursor move: a new column (`Some(None)` for one before the line start), and a new
/// line.
pub type NewCursorPosition = (Option<Option<usize>>, Option<usize>);

/// The edit state: whether editing is on, whether the content was changed, the cursor, and the
/// column last chosen on purpose (kept when moving up and down).
pub struct EditState {
    pub enabled: bool,
    pub modified: bool,
    pub cursor: ContentPosition,
    pub last_set_x: usize,
}

/// `cursor` held within the content: on an existing line (the last one when past the end) and at most
/// at its end; when moving up or down (`use_last_x`) it goes back towards `last_set_x`.
pub open spec fn constrained<T: Content>(cursor: ContentPosition, last_set_x: usize, use_last_x: bool, content: &T) -> ContentPosition {
    let n = content.line_count() as usize;
    let y = if cursor.y >= n { sat_sub(n, 1) } else { cursor.y };
    let line_size = content.line_width(y as int) as usize;
    let x = if cursor.x > line_size {
        line_size
    } else if use_last_x && cursor.x < last_set_x {
        min_usize(last_set_x, line_size)
    } else {
        cursor.x
    };
    ContentPosition { x, y }
}

/// The cursor position for a selection ending at `end`: right after it when the selection runs
/// forward (at the start of the next line past a line end, unless it is the last line).
pub open spec fn cursor_for_selection<T: Content>(content: &T, end: ContentPosition, end_after_start: bool) -> ContentPosition {
    if !end_after_start {
        end
    } else {
        let line_len = content.line_width(end.y as int) as usize;
        if end.x < line_len {
            ContentPosition { x: (end.x + 1) as usize, y: end.y }
        } else if end.y + 1 >= content.line_count() {
            ContentPosition { x: line_len, y: end.y }
        } else {
            ContentPosition { x: 0, y: (end.y + 1) as usize }
        }
    }
}

/// Returns the cursor position for a selection ending at `end`.
fn get_cursor_pos_for_selection<T: Content>(content: &T, end: ContentPosition, end_after_start: bool) -> (r: ContentPosition)
    ensures
        r == cursor_for_selection(content, end, end_after_start),
{
    if !end_after_start {
        return end;
    }
    let line_len = content.line_size(end.y);
    if end.x < line_len {
        return ContentPosition { x: end.x + 1, y: end.y };
    }
    let n = content.len();
    if n == 0 || end.y >= n - 1 {
        ContentPosition { x: line_len, y: end.y }
    } else {
        ContentPosition { x: 0, y: end.y + 1 }
    }
}

/// The edit state after a cursor move `pos` (from a key when not `is_mouse`): a column past the end
/// of a line moves to the start of the next one (for keys, when there is one), a column before the
/// line start moves to the end of the previous line; then the cursor is held within the content.
pub open spec fn moved_cursor<T: Content>(s: EditState, pos: NewCursorPosition, content: &T, is_mouse: bool) -> EditState {
    let n = content.line_count();
    let (c1, new_y) = match pos.0 {
        Some(Some(x)) => {
            let pos_y = match pos.1 {
                Some(y) => y,
                None => s.cursor.y,
            };
            let line_size = content.line_width(pos_y as int);
            if !is_mouse && x > line_size && sat_add(pos_y, 1) < n {
                (ContentPosition { x: 0, y: sat_add(pos_y, 1) }, None)
            } else {
                (ContentPosition { x, y: s.cursor.y }, pos.1)
            }
        },
        Some(None) => if s.cursor.y >= 1 {
            (ContentPosition { x: content.line_width(s.cursor.y - 1) as usize, y: (s.cursor.y - 1) as usize }, pos.1)
        } else {
            (s.cursor, pos.1)
        },
        None => (s.cursor, pos.1),
    };
    let c2 = match new_y {
        Some(y) => ContentPosition { y, ..c1 },
        None => c1,
    };
    let use_last_x = pos.0 is None && new_y is Some && !is_mouse;
    let c3 = constrained(c2, s.last_set_x, use_last_x, content);
    EditState { cursor: c3, last_set_x: if pos.0 is Some { c3.x } else { s.last_set_x }, ..s }
}

/// The cursor move to `p`, or none.
pub open spec fn move_to(p: Option<ContentPosition>) -> NewCursorPosition {
    match p {
        Some(p) => (Some(Some(p.x)), Some(p.y)),
        None => (None, None),
    }
}

/// The cursor move for a mouse click at a screen cell: to the content position under it, on each
/// axis only where it differs from the cursor.
pub open spec fn mouse_move(cursor: ContentPosition, mouse: MouseEvent, page_start: ContentPosition, area: Rect) -> NewCursorPosition {
    if mouse.kind == MouseEventKind::LeftClick {
        let x = sat_add(page_start.x, sat_sub16(mouse.column, area.x) as usize);
        let y = sat_add(page_start.y, sat_sub16(mouse.row, area.y) as usize);
        (if cursor.x == x { None } else { Some(Some(x)) }, if cursor.y == y { None } else { Some(y) })
    } else {
        (None, None)
    }
}

/// The edit state after editing is turned on: the cursor goes after a selection, to `cursor_start`,
/// or onto the page when it is off it.
pub open spec fn enabled_state<T: Content>(
    s: EditState,
    page_start: ContentPosition,
    selection: Option<Selection>,
    cursor_start: Option<ContentPosition>,
    page_size: u16,
    content: &T,
) -> EditState {
    let cursor = match selection {
        Some(sel) => constrained(cursor_for_selection(content, sel.end, in_order(sel.start, sel.end)), s.last_set_x, false, content),
        None => match cursor_start {
            Some(c) => constrained(c, s.last_set_x, false, content),
            None => if s.cursor.y < page_start.y {
                constrained(ContentPosition { y: page_start.y, ..s.cursor }, s.last_set_x, false, content)
            } else if s.cursor.y >= page_start.y + page_size {
                constrained(
                    ContentPosition { y: (page_start.y + sat_sub16(page_size, 1)) as usize, ..s.cursor },
                    s.last_set_x,
                    false,
                    content,
                )
            } else {
                s.cursor
            },
        },
    };
    EditState { enabled: true, cursor, last_set_x: cursor.x, ..s }
}

/// Inserts `count` spaces at the start of line `row`, one after another.
pub open spec fn spaces_inserted(m: ContentModel, count: nat, row: usize) -> ContentModel
    decreases count,
{
    if count == 0 {
        m
    } else {
        model_insert_char(spaces_inserted(m, (count - 1) as nat, row), ContentPosition { x: (count - 1) as usize, y: row }, ' ')
    }
}

/// Characters count of line `y` of `m` (`0` past the end).
pub open spec fn width_in(m: ContentModel, y: int) -> nat {
    if 0 <= y < m.plain.len() { m.plain[y].len() } else { 0 }
}

/// Arithmetic that a key press does on the cursor fits in `usize`.
pub open spec fn key_code_fits(key: KeyCode, cursor: ContentPosition) -> bool {
    &&& (key is Char || key is Right) ==> cursor.x + 1 <= usize::MAX
    &&& key is Tab ==> cursor.x + 2 <= usize::MAX
    &&& (key is Enter || key is Down) ==> cursor.y + 1 <= usize::MAX
}

/// The content and the requested cursor move after a key press at `cursor` (`typed_slowly` tells an
/// `Enter` typed by hand, which keeps the indentation, from one in pasted text).
pub open spec fn key_code_outcome(m: ContentModel, key: KeyCode, cursor: ContentPosition, area: Rect, typed_slowly: bool) -> (
    ContentModel,
    NewCursorPosition,
) {
    match key {
        KeyCode::Char(c) => (model_insert_char(m, cursor, c), (Some(Some((cursor.x + 1) as usize)), None)),
        KeyCode::Tab => (
            model_insert_char(model_insert_char(m, cursor, ' '), cursor, ' '),
            (Some(Some((cursor.x + 2) as usize)), None),
        ),
        KeyCode::Enter => {
            let m1 = model_insert_char(m, cursor, '\n');
            let y = Some((cursor.y + 1) as usize);
            if typed_slowly && cursor.y < m1.plain.len() {
                let k = leading_space_count(m1.plain[cursor.y as int]) as usize;
                (spaces_inserted(m1, k as nat, (cursor.y + 1) as usize), (Some(Some(k)), y))
            } else {
                (m1, (Some(Some(0)), y))
            }
        },
        KeyCode::Backspace => {
            let (m1, p, _) = model_remove_char(m, cursor, true);
            (m1, match p {
                Some(p) => (Some(Some(p.x)), Some(p.y)),
                None => (None, None),
            })
        },
        KeyCode::Delete => {
            let (m1, p, _) = model_remove_char(m, cursor, false);
            (m1, match p {
                Some(p) => (Some(Some(p.x)), Some(p.y)),
                None => (None, None),
            })
        },
        KeyCode::Home => (m, (Some(Some(0)), None)),
        KeyCode::Left => (m, (Some(if cursor.x >= 1 { Some((cursor.x - 1) as usize) } else { None }), None)),
        KeyCode::Right => (m, (Some(Some((cursor.x + 1) as usize)), None)),
        KeyCode::End => (m, (Some(Some(width_in(m, cursor.y as int) as usize)), None)),
        KeyCode::PageUp => (m, (None, Some(sat_sub(cursor.y, area.height as usize)))),
        KeyCode::Up => (m, (None, Some(sat_sub(cursor.y, 1)))),
        KeyCode::Down => (m, (None, Some((cursor.y + 1) as usize))),
        KeyCode::PageDown => (m, (None, Some(sat_add(cursor.y, area.height as usize)))),
        _ => (m, (None, None)),
    }
}

/// Keys that replace a selection.
pub open spec fn hides_selection(key: KeyCombination) -> bool {
    key.code is Char || key.code is Tab || key.code is Enter || key.code is Backspace || key.code is Delete
}

/// `Alt` and nothing else.
pub open spec fn only_alt() -> KeyModifiers {
    KeyModifiers { alt: true, ..KeyModifiers::spec_none() }
}

/// The content after `Alt`+`Up` or `Alt`+`Down` moved the line under the cursor (only without a selection).
pub open spec fn lines_moved(m: ContentModel, key: KeyCombination, selection: Option<Selection>, cursor: ContentPosition) -> ContentModel {
    if selection is None {
        let up = KeyCombination { code: KeyCode::Up, modifiers: only_alt() };
        let down = KeyCombination { code: KeyCode::Down, modifiers: only_alt() };
        let m1 = if key == up && cursor.y > 0 { model_swap(m, cursor.y - 1, cursor.y as int) } else { m };
        if key == down && cursor.y + 1 < m1.plain.len() { model_swap(m1, cursor.y as int, cursor.y + 1) } else { m1 }
    } else {
        m
    }
}

/// The range that `Control`+`x` or `Control`+`d` cuts: line `y` of `m` with its line break.
pub open spec fn line_range(m: ContentModel, y: usize) -> Selection {
    Selection { start: ContentPosition { x: 0, y }, end: ContentPosition { x: width_in(m, y as int) as usize, y } }
}

/// The content, the cursor and the requested cursor move after a key press: a selection is removed
/// first by a key that replaces it, `Control`+`x` and `Control`+`d` cut the cursor line.
pub open spec fn key_outcome(
    m: ContentModel,
    key: KeyCombination,
    selection: Option<Selection>,
    cursor: ContentPosition,
    area: Rect,
    typed_slowly: bool,
) -> (ContentModel, ContentPosition, NewCursorPosition) {
    let m1 = lines_moved(m, key, selection, cursor);
    let is_ctrl_x = key == ctrl_key('x');
    let hides = (hides_selection(key) || is_ctrl_x) && selection is Some;
    let start = ordered(selection->0.start, selection->0.end).0;
    let m2 = if hides { model_remove_text(m1, selection->0) } else { m1 };
    if hides && (key.code is Backspace || key.code is Delete || is_ctrl_x) {
        (m2, cursor, (Some(Some(start.x)), Some(start.y)))
    } else {
        let c = if hides { start } else { cursor };
        if is_ctrl_x || key == ctrl_key('d') {
            (model_remove_text(m2, line_range(m2, c.y)), c, (None, None))
        } else {
            let (m3, moves) = key_code_outcome(m2, key.code, c, area, typed_slowly);
            (m3, c, moves)
        }
    }
}

/// The undo entry of a typed character.
pub open spec fn insert_shape(pos: ContentPosition, ch: char) -> EntryShape {
    EntryShape { mode: UndoMode::Insert, pos, end: None, ch, text: None }
}

/// The undo entry of a cut of `range` from `m`.
pub open spec fn cut_shape(m: ContentModel, range: Selection) -> EntryShape {
    let (a, b) = ordered(range.start, range.end);
    EntryShape { mode: UndoMode::Cut, pos: a, end: Some(b), ch: ' ', text: Some(model_removed_text(m, range)) }
}

/// The undo entry of a swap of lines `a` and `b`.
pub open spec fn swap_shape(a: usize, b: usize) -> EntryShape {
    EntryShape { mode: UndoMode::Swap, pos: ContentPosition { x: 0, y: a }, end: Some(ContentPosition { x: 0, y: b }), ch: ' ', text: None }
}

/// The undo entries of `count` spaces typed at the start of line `row`, one after another.
pub open spec fn spaces_shapes(count: nat, row: usize) -> Seq<EntryShape> {
    Seq::new(count, |i: int| insert_shape(ContentPosition { x: i as usize, y: row }, ' '))
}

/// The undo entry, if any, of a removed character (see [`model_remove_char`]).
pub open spec fn removal_shapes(removed: Option<(ContentPosition, char)>) -> Seq<EntryShape> {
    match removed {
        Some((np, ch)) => seq![EntryShape { mode: UndoMode::Remove, pos: np, end: None, ch, text: None }],
        None => Seq::empty(),
    }
}

/// What a key press at `cursor` records for undo (see [`key_code_outcome`]), and whether it edits
/// at all, which empties the redo stack.
pub open spec fn key_code_history(m: ContentModel, key: KeyCode, cursor: ContentPosition, typed_slowly: bool) -> (Seq<EntryShape>, bool) {
    match key {
        KeyCode::Char(c) => (seq![insert_shape(cursor, c)], true),
        KeyCode::Tab => (seq![insert_shape(cursor, ' '), insert_shape(cursor, ' ')], true),
        KeyCode::Enter => {
            let m1 = model_insert_char(m, cursor, '\n');
            let first = seq![insert_shape(cursor, '\n')];
            if typed_slowly && cursor.y < m1.plain.len() {
                let k = leading_space_count(m1.plain[cursor.y as int]) as usize;
                (first + spaces_shapes(k as nat, (cursor.y + 1) as usize), true)
            } else {
                (first, true)
            }
        },
        KeyCode::Backspace => (removal_shapes(model_remove_char(m, cursor, true).2), true),
        KeyCode::Delete => (removal_shapes(model_remove_char(m, cursor, false).2), true),
        _ => (Seq::empty(), false),
    }
}

/// What a key press records for undo (see [`key_outcome`]): a line swap, the cut of a selection
/// it replaces, the cut of the cursor line, then the entries of the key itself; and whether it
/// edits at all.
pub open spec fn key_history(
    m: ContentModel,
    key: KeyCombination,
    selection: Option<Selection>,
    cursor: ContentPosition,
    typed_slowly: bool,
) -> (Seq<EntryShape>, bool) {
    let up = KeyCombination { code: KeyCode::Up, modifiers: only_alt() };
    let down = KeyCombination { code: KeyCode::Down, modifiers: only_alt() };
    let swap_up = selection is None && key == up && cursor.y > 0;
    let swap_down = selection is None && key == down && cursor.y + 1 < m.plain.len();
    let moved: Seq<EntryShape> = if swap_up {
        seq![swap_shape((cursor.y - 1) as usize, cursor.y)]
    } else if swap_down {
        seq![swap_shape(cursor.y, (cursor.y + 1) as usize)]
    } else {
        Seq::empty()
    };
    let m1 = lines_moved(m, key, selection, cursor);
    let is_ctrl_x = key == ctrl_key('x');
    let hides = (hides_selection(key) || is_ctrl_x) && selection is Some;
    let start = ordered(selection->0.start, selection->0.end).0;
    let m2 = if hides { model_remove_text(m1, selection->0) } else { m1 };
    let before = if hides { moved.push(cut_shape(m1, selection->0)) } else { moved };
    let touched = swap_up || swap_down || hides;
    if hides && (key.code is Backspace || key.code is Delete || is_ctrl_x) {
        (before, touched)
    } else {
        let c = if hides { start } else { cursor };
        if is_ctrl_x || key == ctrl_key('d') {
            (before.push(cut_shape(m2, line_range(m2, c.y))), true)
        } else {
            let (h, t) = key_code_history(m2, key.code, c, typed_slowly);
            (before + h, touched || t)
        }
    }
}

/// The inputs on which a key press is defined: the ranges it removes can be removed, and the
/// cursor arithmetic fits in `usize`.
pub open spec fn key_allowed(m: ContentModel, key: KeyCombination, selection: Option<Selection>, cursor: ContentPosition) -> bool {
    let m1 = lines_moved(m, key, selection, cursor);
    let is_ctrl_x = key == ctrl_key('x');
    let hides = (hides_selection(key) || is_ctrl_x) && selection is Some;
    let start = ordered(selection->0.start, selection->0.end).0;
    let m2 = if hides { model_remove_text(m1, selection->0) } else { m1 };
    let c = if hides { start } else { cursor };
    &&& hides ==> removal_allowed(m1.plain, selection->0)
    &&& !(hides && (key.code is Backspace || key.code is Delete || is_ctrl_x)) ==> {
        &&& (is_ctrl_x || key == ctrl_key('d')) ==> removal_allowed(m2.plain, line_range(m2, c.y))
        &&& !(is_ctrl_x || key == ctrl_key('d')) ==> key_code_fits(key.code, c)
    }
}

/// The inputs on which an event is defined in edit mode (see [`key_allowed`]).
pub open spec fn edit_event_allowed(m: ContentModel, event: TuiEvent, selection: Option<Selection>, cursor: ContentPosition) -> bool {
    match event {
        TuiEvent::Key(key) => key != ctrl_key('a') && key != ctrl_key('z') && key != ctrl_key('y') ==> key_allowed(m, key, selection, cursor),
        _ => true,
    }
}

/// The edit state `s2`, the content `c2` and the response `r` are those an event gives in edit mode
/// from `s` and `c`: `Control`+`a` moves the cursor to the end, `Control`+`z` and `Control`+`y`
/// undo and redo (see [`YamlContent::undo_outcome`] and [`YamlContent::undo_history`]) and move the
/// cursor to the position those yield, other keys edit (see [`key_outcome`]) and record the edits
/// for undo (see [`key_history`]); a left click moves the cursor, other mouse actions move it after
/// the selection and are not handled. Only edits and undoing or redoing change the history.
pub open spec fn edit_event_result(
    s: EditState,
    c: YamlContent,
    event: TuiEvent,
    page_start: ContentPosition,
    selection: Option<Selection>,
    area: Rect,
    s2: EditState,
    c2: YamlContent,
    r: ResponseEvent,
) -> bool {
    let m = c@;
    let m2 = c2@;
    let same_history = c2.undo_stack() == c.undo_stack() && c2.redo_stack() == c.redo_stack();
    &&& s2.enabled == s.enabled
    &&& s2.modified == s.modified
    &&& match event {
        TuiEvent::Key(key) => {
            &&& r == ResponseEvent::Handled
            &&& if key == ctrl_key('a') {
                let last = sat_sub(m.plain.len() as usize, 1);
                &&& s2 == (EditState { cursor: ContentPosition { x: width_in(m, last as int) as usize, y: last }, ..s })
                &&& m2 == m
                &&& same_history
            } else if key == ctrl_key('z') {
                &&& m2 == c.undo_outcome().0
                &&& s2 == moved_in(s, move_to(c.undo_outcome().1), m2, false)
                &&& c.undo_history(c2.undo_stack(), c2.redo_stack())
            } else if key == ctrl_key('y') {
                &&& m2 == c.redo_outcome().0
                &&& s2 == moved_in(s, move_to(c.redo_outcome().1), m2, false)
                &&& c.redo_history(c2.undo_stack(), c2.redo_stack())
            } else {
                exists|typed_slowly: bool| {
                    let (m3, cursor, moves) = #[trigger] key_outcome(m, key, selection, s.cursor, area, typed_slowly);
                    let (shapes, touched) = key_history(m, key, selection, s.cursor, typed_slowly);
                    &&& m2 == m3
                    &&& s2 == moved_in(EditState { cursor, ..s }, moves, m2, false)
                    &&& history_after(c.undo_stack(), c.redo_stack(), c2.undo_stack(), c2.redo_stack(), shapes, touched)
                }
            }
        },
        TuiEvent::Mouse(mouse) => {
            &&& m2 == m
            &&& same_history
            &&& if mouse.kind == MouseEventKind::LeftClick {
                &&& r == ResponseEvent::Handled
                &&& s2 == moved_in(s, mouse_move(s.cursor, mouse, page_start, area), m, true)
            } else {
                &&& r == ResponseEvent::NotHandled
                &&& s2 == match selection {
                    Some(sel) => EditState { cursor: selection_cursor_in(m, sel.end, in_order(sel.start, sel.end)), ..s },
                    None => s,
                }
            }
        },
        TuiEvent::Command => r == ResponseEvent::Handled && s2 == s && m2 == m && same_history,
    }
}

/// [`moved_cursor`] over a content model.
pub open spec fn moved_in(s: EditState, pos: NewCursorPosition, m: ContentModel, is_mouse: bool) -> EditState {
    let n = m.plain.len();
    let (c1, new_y) = match pos.0 {
        Some(Some(x)) => {
            let pos_y = match pos.1 {
                Some(y) => y,
                None => s.cursor.y,
            };
            let line_size = width_in(m, pos_y as int);
            if !is_mouse && x > line_size && sat_add(pos_y, 1) < n {
                (ContentPosition { x: 0, y: sat_add(pos_y, 1) }, None)
            } else {
                (ContentPosition { x, y: s.cursor.y }, pos.1)
            }
        },
        Some(None) => if s.cursor.y >= 1 {
            (ContentPosition { x: width_in(m, s.cursor.y - 1) as usize, y: (s.cursor.y - 1) as usize }, pos.1)
        } else {
            (s.cursor, pos.1)
        },
        None => (s.cursor, pos.1),
    };
    let c2 = match new_y {
        Some(y) => ContentPosition { y, ..c1 },
        None => c1,
    };
    let use_last_x = pos.0 is None && new_y is Some && !is_mouse;
    let c3 = constrained_in(c2, s.last_set_x, use_last_x, m);
    EditState { cursor: c3, last_set_x: if pos.0 is Some { c3.x } else { s.last_set_x }, ..s }
}

/// [`constrained`] over a content model.
pub open spec fn constrained_in(cursor: ContentPosition, last_set_x: usize, use_last_x: bool, m: ContentModel) -> ContentPosition {
    let n = m.plain.len() as usize;
    let y = if cursor.y >= n { sat_sub(n, 1) } else { cursor.y };
    let line_size = width_in(m, y as int) as usize;
    let x = if cursor.x > line_size {
        line_size
    } else if use_last_x && cursor.x < last_set_x {
        min_usize(last_set_x, line_size)
    } else {
        cursor.x
    };
    ContentPosition { x, y }
}

/// [`cursor_for_selection`] over a content model.
pub open spec fn selection_cursor_in(m: ContentModel, end: ContentPosition, end_after_start: bool) -> ContentPosition {
    if !end_after_start {
        end
    } else {
        let line_len = width_in(m, end.y as int) as usize;
        if end.x < line_len {
            ContentPosition { x: (end.x + 1) as usize, y: end.y }
        } else if end.y + 1 >= m.plain.len() {
            ContentPosition { x: line_len, y: end.y }
        } else {
            ContentPosition { x: 0, y: (end.y + 1) as usize }
        }
    }
}

/// On YAML content, moving the cursor depends only on the content model.
pub proof fn lemma_moved_in(s: EditState, pos: NewCursorPosition, c: &YamlContent, is_mouse: bool)
    ensures
        moved_cursor(s, pos, c, is_mouse) == moved_in(s, pos, c@, is_mouse),
        forall|end: ContentPosition, after: bool| #[trigger] cursor_for_selection(c, end, after) == selection_cursor_in(c@, end, after),
{
}

/// Context for the content edit mode.
pub struct EditContext {
    pub is_enabled: bool,
    pub is_modified: bool,
    pub cursor: ContentPosition,
    last_set_x: usize,
    last_key_press: Instant,
}

impl View for EditContext {
    type V = EditState;

    closed spec fn view(&self) -> EditState {
        EditState { enabled: self.is_enabled, modified: self.is_modified, cursor: self.cursor, last_set_x: self.last_set_x }
    }
}

impl EditContext {
    /// Returns `true` when edit mode is on.
    pub fn enabled(&self) -> (r: bool)
        ensures
            r == self@.enabled,
    {
        self.is_enabled
    }

    /// Returns `true` when the content was found changed when edit mode was last left.
    pub fn modified(&self) -> (r: bool)
        ensures
            r == self@.modified,
    {
        self.is_modified
    }

    /// Returns the cursor position.
    pub fn cursor_position(&self) -> (r: ContentPosition)
        ensures
            r == self@.cursor,
    {
        self.cursor
    }

    /// Moves the cursor to `cursor`.
    pub fn set_cursor(&mut self, cursor: ContentPosition)
        ensures
            final(self)@ == (EditState { cursor, ..old(self)@ }),
    {
        self.cursor = cursor;
    }

    /// Leaves edit mode, recording whether the content was changed.
    pub fn leave(&mut self, modified: bool)
        ensures
            final(self)@ == (EditState { enabled: false, modified, ..old(self)@ }),
    {
        self.is_modified = modified;
        self.is_enabled = false;
    }

    /// Creates new [`EditContext`] instance.
    pub fn new() -> (r: Self)
        ensures
            r@ == (EditState { enabled: false, modified: false, cursor: ContentPosition { x: 0, y: 0 }, last_set_x: 0 }),
    {
        EditContext {
            is_enabled: false,
            is_modified: false,
            cursor: ContentPosition::new(0, 0),
            last_set_x: 0,
            last_key_press: instant_now(),
        }
    }

    /// Sets [`EditContext`] as enabled.
    pub fn enable<T: Content>(
        &mut self,
        page_start: ContentPosition,
        selection: Option<Selection>,
        cursor_start: Option<ContentPosition>,
        page_size: u16,
        content: &mut T,
    )
        requires
            page_start.y + page_size <= usize::MAX,
        ensures
            final(self)@ == enabled_state(old(self)@, page_start, selection, cursor_start, page_size, &*old(content)),
            *final(content) == *old(content),
    {
        self.is_enabled = true;
        match selection {
            Some(selection) => {
                self.cursor = get_cursor_pos_for_selection(&*content, selection.end, selection.is_end_after_start());
                self.constraint_cursor_position(false, content);
            },
            None => match cursor_start {
                Some(cursor_start) => {
                    self.cursor = cursor_start;
                    self.constraint_cursor_position(false, content);
                },
                None => {
                    if self.cursor.y < page_start.y {
                        self.cursor.y = page_start.y;
                        self.constraint_cursor_position(false, content);
                    } else if self.cursor.y >= page_start.y + page_size as usize {
                        self.cursor.y = page_start.y + page_size.saturating_sub(1) as usize;
                        self.constraint_cursor_position(false, content);
                    }
                },
            },
        }
        self.last_set_x = self.cursor.x;
    }

    /// Process UI key/mouse event.
    pub fn process_event(
        &mut self,
        event: &TuiEvent,
        content: &mut YamlContent,
        page_start: ContentPosition,
        selection: Option<Selection>,
        area: Rect,
    ) -> (r: ResponseEvent)
        requires
            old(content).wf(),
            edit_event_allowed(old(content)@, *event, selection, old(self)@.cursor),
        ensures
            final(content).wf(),
            final(content).editable() == old(content).editable(),
            edit_event_result(old(self)@, *old(content), *event, page_start, selection, area, final(self)@, *final(content), r),
    {
        match event {
            TuiEvent::Key(key) => {
                if is_ctrl_key(key, 'a') {
                    let last = content.len().saturating_sub(1);
                    self.cursor = ContentPosition::new(content.line_size(last), last);
                    self.last_key_press = instant_now();
                    return ResponseEvent::Handled;
                }
                if is_ctrl_key(key, 'z') || is_ctrl_key(key, 'y') {
                    let p = if is_ctrl_key(key, 'z') {
                        content.undo()
                    } else {
                        content.redo()
                    };
                    let pos: NewCursorPosition = match p {
                        Some(p) => (Some(Some(p.x)), Some(p.y)),
                        None => (None, None),
                    };
                    assert(pos == move_to(p));
                    self.update_cursor_position(pos, content, false);
                    proof {
                        lemma_moved_in(old(self)@, pos, content, false);
                    }
                    assert(self@ == moved_in(old(self)@, move_to(p), content@, false));
                } else {
                    let typed_slowly = as_millis(&elapsed(&self.last_key_press)) > 10;
                    let ghost s1 = self@;
                    let pos = self.process_key(key, content, selection, area, typed_slowly);
                    let ghost s2 = self@;
                    self.update_cursor_position(pos, content, false);
                    proof {
                        lemma_moved_in(s2, pos, content, false);
                        let (m3, c, moves) = key_outcome(old(content)@, *key, selection, s1.cursor, area, typed_slowly);
                        let (shapes, touched) = key_history(old(content)@, *key, selection, s1.cursor, typed_slowly);
                        assert(content@ == m3 && self@ == moved_in(EditState { cursor: c, ..s1 }, moves, content@, false));
                        assert(history_after(
                            old(content).undo_stack(),
                            old(content).redo_stack(),
                            content.undo_stack(),
                            content.redo_stack(),
                            shapes,
                            touched,
                        ));
                    }
                }
                self.last_key_press = instant_now();
            },
            TuiEvent::Mouse(mouse) => {
                if mouse.kind == MouseEventKind::LeftClick {
                    let pos = self.process_mouse(*mouse, page_start, area);
                    self.update_cursor_position(pos, content, true);
                    proof {
                        lemma_moved_in(old(self)@, pos, content, true);
                    }
                } else {
                    match selection {
                        Some(selection) => {
                            self.cursor = get_cursor_pos_for_selection(&*content, selection.end, selection.is_end_after_start());
                            proof {
                                lemma_moved_in(old(self)@, (None, None), content, true);
                            }
                        },
                        None => {},
                    }
                    return ResponseEvent::NotHandled;
                }
            },
            TuiEvent::Command => {},
        }
        ResponseEvent::Handled
    }

    /// Applies a key press to the content (removing a selection or cutting the cursor line first
    /// where the key asks for it) and returns the requested cursor move.
    #[verifier::rlimit(60)]
    fn process_key(
        &mut self,
        key: &KeyCombination,
        content: &mut YamlContent,
        selection: Option<Selection>,
        area: Rect,
        typed_slowly: bool,
    ) -> (r: NewCursorPosition)
        requires
            old(content).wf(),
            key_allowed(old(content)@, *key, selection, old(self)@.cursor),
        ensures
            final(content).wf(),
            final(content).editable() == old(content).editable(),
            ({
                let (m, c, moves) = key_outcome(old(content)@, *key, selection, old(self)@.cursor, area, typed_slowly);
                &&& final(content)@ == m
                &&& final(self)@ == EditState { cursor: c, ..old(self)@ }
                &&& r == moves
            }),
            ({
                let (shapes, touched) = key_history(old(content)@, *key, selection, old(self)@.cursor, typed_slowly);
                history_after(
                    old(content).undo_stack(),
                    old(content).redo_stack(),
                    final(content).undo_stack(),
                    final(content).redo_stack(),
                    shapes,
                    touched,
                )
            }),
    {
        let ghost u0 = content.undo_stack();
        let ghost r0 = content.redo_stack();
        let ghost mut shapes: Seq<EntryShape> = Seq::empty();
        let ghost mut touched = false;
        proof {
            lemma_history_none(u0, r0, false);
        }
        if selection.is_none() {
            let up = KeyCombination::new(KeyCode::Up, KeyModifiers::alt());
            let down = KeyCombination::new(KeyCode::Down, KeyModifiers::alt());
            if *key == up && self.cursor.y > 0 {
                let ghost u1 = content.undo_stack();
                let ghost r1 = content.redo_stack();
                content.swap_lines(self.cursor.y - 1, self.cursor.y);
                proof {
                    let e = swap_shape((self.cursor.y - 1) as usize, self.cursor.y);
                    lemma_history_push(u1, r1, content.undo_stack(), content.redo_stack(), e);
                    lemma_history_then(u0, r0, u1, r1, shapes, touched, content.undo_stack(), content.redo_stack(), seq![e], true);
                    assert(shapes + seq![e] =~= seq![e]);
                    shapes = seq![e];
                    touched = true;
                }
            }
            if *key == down && self.cursor.y < usize::MAX && self.cursor.y + 1 < content.len() {
                let ghost u1 = content.undo_stack();
                let ghost r1 = content.redo_stack();
                content.swap_lines(self.cursor.y, self.cursor.y + 1);
                proof {
                    let e = swap_shape(self.cursor.y, (self.cursor.y + 1) as usize);
                    lemma_history_push(u1, r1, content.undo_stack(), content.redo_stack(), e);
                    lemma_history_then(u0, r0, u1, r1, shapes, touched, content.undo_stack(), content.redo_stack(), seq![e], true);
                    assert(shapes + seq![e] =~= seq![e]);
                    shapes = seq![e];
                    touched = true;
                }
            }
        }
        let ghost m1 = content@;
        let is_ctrl_x = is_ctrl_key(key, 'x');
        let hides = match key.code {
            KeyCode::Char(_) | KeyCode::Tab | KeyCode::Enter | KeyCode::Backspace | KeyCode::Delete => true,
            _ => false,
        };
        match selection {
            Some(selection) => {
                if hides || is_ctrl_x {
                    let start = selection.sorted().0;
                    let ghost u1 = content.undo_stack();
                    let ghost r1 = content.redo_stack();
                    content.remove_text(selection);
                    proof {
                        let e = cut_shape(m1, selection);
                        lemma_history_push(u1, r1, content.undo_stack(), content.redo_stack(), e);
                        lemma_history_then(u0, r0, u1, r1, shapes, touched, content.undo_stack(), content.redo_stack(), seq![e], true);
                        assert(shapes + seq![e] =~= shapes.push(e));
                        shapes = shapes.push(e);
                        touched = true;
                    }
                    match key.code {
                        KeyCode::Backspace | KeyCode::Delete => {
                            return (Some(Some(start.x)), Some(start.y));
                        },
                        _ => {},
                    }
                    if is_ctrl_x {
                        return (Some(Some(start.x)), Some(start.y));
                    }
                    self.cursor = start;
                }
            },
            None => {},
        }
        if is_ctrl_x || is_ctrl_key(key, 'd') {
            let range = Selection::from_line_end(content.line_size(self.cursor.y), self.cursor.y);
            let ghost m2 = content@;
            let ghost u1 = content.undo_stack();
            let ghost r1 = content.redo_stack();
            content.remove_text(range);
            proof {
                let e = cut_shape(m2, range);
                lemma_history_push(u1, r1, content.undo_stack(), content.redo_stack(), e);
                lemma_history_then(u0, r0, u1, r1, shapes, touched, content.undo_stack(), content.redo_stack(), seq![e], true);
                assert(shapes + seq![e] =~= shapes.push(e));
            }
            return (None, None);
        }
        let ghost u1 = content.undo_stack();
        let ghost r1 = content.redo_stack();
        let ghost m2 = content@;
        let ghost c = self@.cursor;
        let r = self.process_key_code(key.code, content, area, typed_slowly);
        proof {
            let (h, t) = key_code_history(m2, key.code, c, typed_slowly);
            lemma_history_then(u0, r0, u1, r1, shapes, touched, content.undo_stack(), content.redo_stack(), h, t);
        }
        r
    }

    /// Applies the edit or the move of a key to the content at the cursor and returns the requested
    /// cursor move.
    #[verifier::rlimit(60)]
    fn process_key_code(&mut self, key: KeyCode, content: &mut YamlContent, area: Rect, typed_slowly: bool) -> (r: NewCursorPosition)
        requires
            old(content).wf(),
            key_code_fits(key, old(self)@.cursor),
        ensures
            final(content).wf(),
            final(content).editable() == old(content).editable(),
            final(self)@ == old(self)@,
            (final(content)@, r) == key_code_outcome(old(content)@, key, old(self)@.cursor, area, typed_slowly),
            ({
                let (shapes, touched) = key_code_history(old(content)@, key, old(self)@.cursor, typed_slowly);
                history_after(
                    old(content).undo_stack(),
                    old(content).redo_stack(),
                    final(content).undo_stack(),
                    final(content).redo_stack(),
                    shapes,
                    touched,
                )
            }),
    {
        let cursor = self.cursor;
        let ghost u0 = content.undo_stack();
        let ghost r0 = content.redo_stack();
        proof {
            lemma_history_none(u0, r0, false);
        }
        match key {
            KeyCode::Char(c) => {
                content.insert_char(cursor, c);
                proof {
                    lemma_history_push(u0, r0, content.undo_stack(), content.redo_stack(), insert_shape(cursor, c));
                }
                (Some(Some(cursor.x + 1)), None)
            },
            KeyCode::Tab => {
                content.insert_char(cursor, ' ');
                let ghost u1 = content.undo_stack();
                let ghost r1 = content.redo_stack();
                content.insert_char(cursor, ' ');
                proof {
                    let e = insert_shape(cursor, ' ');
                    lemma_history_push(u0, r0, u1, r1, e);
                    lemma_history_push(u1, r1, content.undo_stack(), content.redo_stack(), e);
                    lemma_history_then(u0, r0, u1, r1, seq![e], true, content.undo_stack(), content.redo_stack(), seq![e], true);
                    assert(seq![e] + seq![e] =~= seq![e, e]);
                }
                (Some(Some(cursor.x + 2)), None)
            },
            KeyCode::Enter => {
                content.insert_char(cursor, '\n');
                proof {
                    lemma_history_push(u0, r0, content.undo_stack(), content.redo_stack(), insert_shape(cursor, '\n'));
                }
                let ghost first = seq![insert_shape(cursor, '\n')];
                let y = Some(cursor.y + 1);
                let spaces = if typed_slowly {
                    content.leading_spaces(cursor.y)
                } else {
                    None
                };
                match spaces {
                    Some(leading_spaces) => {
                        let ghost m1 = content@;
                        let ghost row = (cursor.y + 1) as usize;
                        let mut i: usize = 0;
                        proof {
                            assert(first + spaces_shapes(0, row) =~= first);
                        }
                        while i < leading_spaces
                            invariant
                                i <= leading_spaces,
                                content.wf(),
                                content.editable() == old(content).editable(),
                                content@ == spaces_inserted(m1, i as nat, row),
                                cursor.y + 1 <= usize::MAX,
                                row == cursor.y + 1,
                                history_after(
                                    u0,
                                    r0,
                                    content.undo_stack(),
                                    content.redo_stack(),
                                    first + spaces_shapes(i as nat, row),
                                    true,
                                ),
                            decreases leading_spaces - i,
                        {
                            let ghost u1 = content.undo_stack();
                            let ghost r1 = content.redo_stack();
                            content.insert_char(ContentPosition::new(i, cursor.y + 1), ' ');
                            proof {
                                let e = insert_shape(ContentPosition { x: i, y: row }, ' ');
                                lemma_history_push(u1, r1, content.undo_stack(), content.redo_stack(), e);
                                lemma_history_then(
                                    u0,
                                    r0,
                                    u1,
                                    r1,
                                    first + spaces_shapes(i as nat, row),
                                    true,
                                    content.undo_stack(),
                                    content.redo_stack(),
                                    seq![e],
                                    true,
                                );
                                assert(first + spaces_shapes(i as nat, row) + seq![e] =~= first + spaces_shapes((i + 1) as nat, row));
                            }
                            i = i + 1;
                        }
                        (Some(Some(leading_spaces)), y)
                    },
                    None => (Some(Some(0)), y),
                }
            },
            KeyCode::Backspace | KeyCode::Delete => {
                let is_backspace = key == KeyCode::Backspace;
                let removed = content.remove_char(cursor, is_backspace);
                proof {
                    match model_remove_char(old(content)@, cursor, is_backspace).2 {
                        Some((np, ch)) => {
                            lemma_history_push(
                                u0,
                                r0,
                                content.undo_stack(),
                                content.redo_stack(),
                                EntryShape { mode: UndoMode::Remove, pos: np, end: None, ch, text: None },
                            );
                        },
                        None => {
                            lemma_history_none(u0, r0, true);
                        },
                    }
                }
                match removed {
                    Some(position) => (Some(Some(position.x)), Some(position.y)),
                    None => (None, None),
                }
            },
            KeyCode::Home => (Some(Some(0)), None),
            KeyCode::Left => (Some(if cursor.x >= 1 { Some(cursor.x - 1) } else { None }), None),
            KeyCode::Right => (Some(Some(cursor.x + 1)), None),
            KeyCode::End => (Some(Some(content.line_size(cursor.y))), None),
            KeyCode::PageUp => (None, Some(cursor.y.saturating_sub(area.height as usize))),
            KeyCode::Up => (None, Some(cursor.y.saturating_sub(1))),
            KeyCode::Down => (None, Some(cursor.y + 1)),
            KeyCode::PageDown => (None, Some(cursor.y.saturating_add(area.height as usize))),
            _ => (None, None),
        }
    }

    /// Returns the cursor move for a mouse click.
    fn process_mouse(&mut self, mouse: MouseEvent, page_start: ContentPosition, area: Rect) -> (r: NewCursorPosition)
        ensures
            r == mouse_move(old(self)@.cursor, mouse, page_start, area),
            final(self)@ == old(self)@,
    {
        if mouse.kind == MouseEventKind::LeftClick {
            let x = page_start.x.saturating_add(mouse.column.saturating_sub(area.x) as usize);
            let y = page_start.y.saturating_add(mouse.row.saturating_sub(area.y) as usize);
            let x = if self.cursor.x == x { None } else { Some(Some(x)) };
            let y = if self.cursor.y == y { None } else { Some(y) };
            return (x, y);
        }
        (None, None)
    }

    /// Moves the cursor as `pos` requests and holds it within the content.
    fn update_cursor_position<T: Content>(&mut self, pos: NewCursorPosition, content: &mut T, is_mouse: bool)
        ensures
            final(self)@ == moved_cursor(old(self)@, pos, &*old(content), is_mouse),
            *final(content) == *old(content),
    {
        let mut new_y = pos.1;
        match pos.0 {
            Some(Some(x)) => {
                let pos_y = match pos.1 {
                    Some(y) => y,
                    None => self.cursor.y,
                };
                let line_size = content.line_size(pos_y);
                if !is_mouse && x > line_size && pos_y.saturating_add(1) < content.len() {
                    self.cursor.x = 0;
                    self.cursor.y = pos_y.saturating_add(1);
                    new_y = None;
                } else {
                    self.cursor.x = x;
                }
            },
            Some(None) => {
                if self.cursor.y >= 1 {
                    let y = self.cursor.y - 1;
                    self.cursor.y = y;
                    self.cursor.x = content.line_size(y);
                }
            },
            None => {},
        }
        match new_y {
            Some(y) => {
                self.cursor.y = y;
            },
            None => {},
        }
        let use_last_x = pos.0.is_none() && new_y.is_some() && !is_mouse;
        self.constraint_cursor_position(use_last_x, content);
        if pos.0.is_some() {
            self.last_set_x = self.cursor.x;
        }
    }

    /// Holds the cursor within the content.
    fn constraint_cursor_position<T: Content>(&mut self, use_last_x: bool, content: &mut T)
        ensures
            final(self)@ == (EditState {
                cursor: constrained(old(self)@.cursor, old(self)@.last_set_x, use_last_x, &*old(content)),
                ..old(self)@
            }),
            *final(content) == *old(content),
    {
        let lines_no = content.len();
        if self.cursor.y >= lines_no {
            self.cursor.y = lines_no.saturating_sub(1);
        }
        let line_size = content.line_size(self.cursor.y);
        if self.cursor.x > line_size {
            self.cursor.x = line_size;
        } else if use_last_x && self.cursor.x < self.last_set_x {
            self.cursor.x = if self.last_set_x < line_size { self.last_set_x } else { line_size };
        }
    }
}

/// The screen cell of the edit cursor when the page starting at `page` is drawn on `area`: `None`
/// when the cursor lies above or left of the page or its cell falls outside the area (a position
/// that does not fit a `u16` stands for `0`).
pub open spec fn cursor_cell(cursor: ContentPosition, page: ContentPosition, area: Rect) -> Option<ScreenPosition> {
    if cursor.x >= page.x && cursor.y >= page.y {
        let x = sat_add((cursor.x - page.x) as usize, area.x as usize);
        let y = sat_add((cursor.y - page.y) as usize, area.y as usize);
        let p = ScreenPosition { x: if x <= u16::MAX { x as u16 } else { 0 }, y: if y <= u16::MAX { y as u16 } else { 0 } };
        if area.spec_contains(p) { Some(p) } else { None }
    } else {
        None
    }
}

/// Widget that shows the edit cursor.
pub struct ContentEditWidget<'a> {
    pub context: &'a EditContext,
    pub page_start: &'a ContentPosition,
}

impl<'a> ContentEditWidget<'a> {
    /// Creates new [`ContentEditWidget`] instance.
    pub fn new(context: &'a EditContext, page_start: &'a ContentPosition) -> (r: Self)
        ensures
            r.context == context,
            r.page_start == page_start,
    {
        ContentEditWidget { context, page_start }
    }

    /// Returns the screen cell of the cursor on `area`, if it is shown there.
    pub fn cursor_cell(&self, area: Rect) -> (r: Option<ScreenPosition>)
        ensures
            r == cursor_cell(self.context@.cursor, *self.page_start, area),
    {
        let cursor = self.context.cursor;
        if cursor.x < self.page_start.x || cursor.y < self.page_start.y {
            return None;
        }
        let x = (cursor.x - self.page_start.x).saturating_add(area.x as usize);
        let y = (cursor.y - self.page_start.y).saturating_add(area.y as usize);
        let p = ScreenPosition { x: if x <= 65535 { x as u16 } else { 0 }, y: if y <= 65535 { y as u16 } else { 0 } };
        if area.contains(p) { Some(p) } else { None }
    }
}

} // verus!
