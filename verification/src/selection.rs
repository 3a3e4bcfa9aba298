use vstd::prelude::*;

use crate::content::Content;
use crate::events::{ctrl_key, is_ctrl_key, KeyCode, KeyCombination, KeyModifiers, MouseEvent, MouseEventKind, TuiEvent};
use crate::position::{sat_add, sat_sub, sat_sub16, ContentPosition, Rect, ScreenPosition};

verus! {

/// `true` when `p2` does not come before `p1` in document order.
pub open spec fn in_order(p1: ContentPosition, p2: ContentPosition) -> bool {
    p2.y > p1.y || (p2.y == p1.y && p2.x >= p1.x)
}

/// The two positions in document order.
pub open spec fn ordered(p1: ContentPosition, p2: ContentPosition) -> (ContentPosition, ContentPosition) {
    if in_order(p1, p2) { (p1, p2) } else { (p2, p1) }
}

/// Returns `true` if `p2` does not come before `p1` in document order.
pub fn is_sorted(p1: ContentPosition, p2: ContentPosition) -> (r: bool)
    ensures
        r == in_order(p1, p2),
{
    p2.y > p1.y || (p2.y == p1.y && p2.x >= p1.x)
}

/// Returns the two positions sorted in document order.
pub fn sort(p1: ContentPosition, p2: ContentPosition) -> (r: (ContentPosition, ContentPosition))
    ensures
        r == ordered(p1, p2),
{
    if is_sorted(p1, p2) {
        (p1, p2)
    } else {
        (p2, p1)
    }
}

/// Represents a text selection defined by a `start` and `end` position in the content.
#[derive(Debug, Clone, Copy, PartialEq, Eq, Structural)]
pub struct Selection {
    pub start: ContentPosition,
    pub end: ContentPosition,
}

impl Selection {
    /// Creates new [`Selection`] instance.
    pub fn new(start: ContentPosition, end: ContentPosition) -> (r: Self)
        ensures
            r.start == start,
            r.end == end,
    {
        Self { start, end }
    }

    /// Creates new [`Selection`] from `0` to the end at `x:y`.
    pub fn from_line_end(x: usize, y: usize) -> (r: Self)
        ensures
            r.start == (ContentPosition { x: 0, y }),
            r.end == (ContentPosition { x, y }),
    {
        Self { start: ContentPosition::new(0, y), end: ContentPosition::new(x, y) }
    }

    /// Returns `true` if `end` comes after `start` in document order.
    pub fn is_end_after_start(&self) -> (r: bool)
        ensures
            r == in_order(self.start, self.end),
    {
        is_sorted(self.start, self.end)
    }

    /// Returns the two positions sorted in document order, ensuring that the first is always the earlier position.
    pub fn sorted(&self) -> (r: (ContentPosition, ContentPosition))
        ensures
            r == ordered(self.start, self.end),
    {
        sort(self.start, self.end)
    }
}

/// Keys that move the cursor and so extend a selection made with `Shift`.
pub open spec fn is_selection_key(code: KeyCode) -> bool {
    ||| code is Left
    ||| code is Right
    ||| code is Home
    ||| code is End
    ||| code is Up
    ||| code is Down
    ||| code is PageUp
    ||| code is PageDown
}

/// Returns `true` for the keys that move the cursor and so extend a selection made with `Shift`.
pub fn is_allowed_key_code(key_code: KeyCode) -> (r: bool)
    ensures
        r == is_selection_key(key_code),
{
    match key_code {
        KeyCode::Left | KeyCode::Right | KeyCode::Home | KeyCode::End | KeyCode::Up | KeyCode::Down | KeyCode::PageUp
        | KeyCode::PageDown => true,
        _ => false,
    }
}

/// `cursor` moved one character back: to the end of the previous line from a line start, and
/// nowhere from the very start.
pub open spec fn moved_back<T: Content>(cursor: ContentPosition, content: &T) -> ContentPosition {
    if cursor.x > 0 {
        ContentPosition { x: (cursor.x - 1) as usize, y: cursor.y }
    } else if cursor.y > 0 {
        ContentPosition { x: content.line_width(cursor.y - 1) as usize, y: (cursor.y - 1) as usize }
    } else {
        cursor
    }
}

/// Moves `cursor` one character back.
pub fn decrement_cursor_x<T: Content>(cursor: ContentPosition, content: &T) -> (r: ContentPosition)
    ensures
        r == moved_back(cursor, content),
{
    if cursor.x > 0 {
        ContentPosition { x: cursor.x - 1, y: cursor.y }
    } else if cursor.y > 0 {
        ContentPosition { x: content.line_size(cursor.y - 1), y: cursor.y - 1 }
    } else {
        cursor
    }
}

/// The smaller of two `usize` values.
pub open spec fn min_usize(a: usize, b: usize) -> usize {
    if a <= b { a } else { b }
}

/// The content position under the screen cell `screen_x:screen_y` of `area` when the page starts at
/// `page_start`. Below the last line it is the last character of the last line. Past the end of a
/// line it is the line end; when a selection started at `selection_start` it is the position the
/// selection ends at: one character back when it runs forward, and none when it started past the
/// end of the same line.
pub open spec fn position_in_content<T: Content>(
    area: Rect,
    content: &T,
    page_start: ContentPosition,
    selection_start: Option<ContentPosition>,
    screen_x: u16,
    screen_y: u16,
) -> Option<ContentPosition> {
    let x = sat_add(page_start.x, sat_sub16(screen_x, area.x) as usize);
    let y = sat_add(page_start.y, sat_sub16(screen_y, area.y) as usize);
    let n = content.line_count() as usize;
    if y >= n {
        let last = sat_sub(n, 1);
        Some(ContentPosition { x: sat_sub(content.line_width(last as int) as usize, 1), y: last })
    } else {
        let line_len = content.line_width(y as int) as usize;
        match selection_start {
            Some(start) => if start.y == y && start.x >= line_len && x >= line_len {
                None
            } else if in_order(ContentPosition { x, y }, start) {
                Some(ContentPosition { x: min_usize(x, line_len), y })
            } else {
                Some(moved_back(ContentPosition { x: min_usize(x, line_len), y }, content))
            },
            None => Some(ContentPosition { x: min_usize(x, line_len), y }),
        }
    }
}

/// Returns the content position under the screen cell `screen_x:screen_y` (see [`position_in_content`]).
pub fn get_position_in_content<T: Content>(
    area: Rect,
    content: &T,
    page_start: ContentPosition,
    selection_start: Option<ContentPosition>,
    screen_x: u16,
    screen_y: u16,
) -> (r: Option<ContentPosition>)
    ensures
        r == position_in_content(area, content, page_start, selection_start, screen_x, screen_y),
{
    let x = page_start.x.saturating_add(screen_x.saturating_sub(area.x) as usize);
    let y = page_start.y.saturating_add(screen_y.saturating_sub(area.y) as usize);
    let n = content.len();
    if y >= n {
        let y = n.saturating_sub(1);
        let x = content.line_size(y).saturating_sub(1);
        return Some(ContentPosition { x, y });
    }
    let line_len = content.line_size(y);
    match selection_start {
        Some(start) => {
            if start.y == y && start.x >= line_len && x >= line_len {
                None
            } else if is_sorted(ContentPosition { x, y }, start) {
                Some(ContentPosition { x: if x < line_len { x } else { line_len }, y })
            } else {
                let x = if x < line_len { x } else { line_len };
                Some(decrement_cursor_x(ContentPosition { x, y }, content))
            }
        },
        None => Some(ContentPosition { x: if x < line_len { x } else { line_len }, y }),
    }
}

/// The area and page start leave room for scrolling the page by two cells without overflow.
pub open spec fn scroll_fits(area: Rect, page_start: ContentPosition) -> bool {
    &&& area.y + area.height <= u16::MAX
    &&& area.x + area.width <= u16::MAX
    &&& area.y + 3 <= u16::MAX
    &&& area.x + 3 <= u16::MAX
    &&& page_start.x + 2 <= usize::MAX
    &&& page_start.y + 2 <= usize::MAX
}

/// The page start after dragging the mouse to `mouse_x:mouse_y`: it moves two cells towards a border
/// the mouse is within three cells of, and is then held within the content.
pub open spec fn scrolled_page<T: Content>(area: Rect, page_start: ContentPosition, content: &T, mouse_x: u16, mouse_y: u16) -> ContentPosition {
    let y = if mouse_y > sat_sub16((area.y + area.height) as u16, 3) {
        (page_start.y + 2) as usize
    } else if mouse_y < area.y + 3 {
        sat_sub(page_start.y, 2)
    } else {
        page_start.y
    };
    let x = if mouse_x > sat_sub16((area.x + area.width) as u16, 3) {
        (page_start.x + 2) as usize
    } else if mouse_x < area.x + 3 {
        sat_sub(page_start.x, 2)
    } else {
        page_start.x
    };
    let max_y = sat_sub(content.line_count() as usize, area.height as usize);
    let max_x = sat_sub(content.widest() as usize, area.width as usize);
    ContentPosition { x: if x > max_x { max_x } else { x }, y: if y > max_y { max_y } else { y } }
}

/// Scrolls the page while the mouse drags a selection near a border of `area`.
pub fn scroll_page_if_needed<T: Content>(area: Rect, page_start: &mut ContentPosition, content: &mut T, mouse_x: u16, mouse_y: u16)
    requires
        scroll_fits(area, *old(page_start)),
    ensures
        *final(page_start) == scrolled_page(area, *old(page_start), &*old(content), mouse_x, mouse_y),
        *final(content) == *old(content),
{
    if mouse_y > (area.y + area.height).saturating_sub(3) {
        page_start.y = page_start.y + 2;
    } else if mouse_y < area.y + 3 {
        page_start.y = page_start.y.saturating_sub(2);
    }
    if mouse_x > (area.x + area.width).saturating_sub(3) {
        page_start.x = page_start.x + 2;
    } else if mouse_x < area.x + 3 {
        page_start.x = page_start.x.saturating_sub(2);
    }
    let max_y = content.max_vstart(area.height);
    if page_start.y > max_y {
        page_start.y = max_y;
    }
    let max_x = content.max_hstart(area.width);
    if page_start.x > max_x {
        page_start.x = max_x;
    }
}

/// The selection state: its ends, the position it was started from, and whether the last mouse
/// action was a double click.
pub struct SelectState {
    pub start: Option<ContentPosition>,
    pub end: Option<ContentPosition>,
    pub init: Option<ContentPosition>,
    pub had_double_click: bool,
}

/// The state with the selection cleared.
pub open spec fn cleared(s: SelectState) -> SelectState {
    SelectState { start: None, end: None, init: None, ..s }
}

/// The state after a key press was processed, before the edit it causes.
pub open spec fn after_key<T: Content>(s: SelectState, key: KeyCombination, content: &T, cursor: Option<ContentPosition>) -> SelectState {
    if key == ctrl_key('a') {
        let last = sat_sub(content.line_count() as usize, 1);
        let first = ContentPosition { x: 0, y: 0 };
        SelectState {
            init: Some(first),
            start: Some(first),
            end: Some(ContentPosition { x: sat_sub(content.line_width(last as int) as usize, 1), y: last }),
            ..s
        }
    } else {
        match cursor {
            Some(c) => if key.modifiers == KeyModifiers::spec_shift() && is_selection_key(key.code) && s.init is None {
                SelectState { init: Some(c), start: Some(c), ..s }
            } else {
                s
            },
            None => s,
        }
    }
}

/// The state after the edit a key press caused moved the cursor to `cursor`.
pub open spec fn after_key_final<T: Content>(s: SelectState, key: KeyCombination, content: &T, cursor: ContentPosition) -> SelectState {
    if key.modifiers == KeyModifiers::spec_shift() && s.init is Some && is_selection_key(key.code) {
        let init = s.init->0;
        if in_order(init, cursor) {
            SelectState { start: s.init, end: if init == cursor { None } else { Some(moved_back(cursor, content)) }, ..s }
        } else {
            SelectState { start: Some(moved_back(init, content)), end: Some(cursor), ..s }
        }
    } else if key != ctrl_key('a') {
        cleared(s)
    } else {
        s
    }
}

/// The state after a mouse action (`page_start` is the page start the action happened on).
pub open spec fn after_mouse<T: Content>(s: SelectState, mouse: MouseEvent, content: &T, page_start: ContentPosition, area: Rect) -> SelectState {
    let here = ScreenPosition { x: mouse.column, y: mouse.row };
    let pos = position_in_content(area, content, page_start, None, mouse.column, mouse.row);
    match mouse.kind {
        MouseEventKind::LeftDoubleClick => {
            let s2 = if area.spec_contains(here) && pos is Some && content.word_span(pos->0) is Some {
                let (a, b) = content.word_span(pos->0)->0;
                let first = ContentPosition { x: a, y: pos->0.y };
                SelectState { init: Some(first), start: Some(first), end: Some(ContentPosition { x: b, y: pos->0.y }), ..s }
            } else {
                s
            };
            SelectState { had_double_click: true, ..s2 }
        },
        MouseEventKind::LeftTripleClick => {
            let line_end = sat_sub(content.line_width(pos->0.y as int) as usize, 1);
            let s2 = if s.had_double_click && area.spec_contains(here) && pos is Some && line_end > 0 {
                let first = ContentPosition { x: 0, y: pos->0.y };
                SelectState { init: Some(first), start: Some(first), end: Some(ContentPosition { x: line_end, y: pos->0.y }), ..s }
            } else {
                s
            };
            SelectState { had_double_click: false, ..s2 }
        },
        MouseEventKind::LeftClick => SelectState { init: pos, start: pos, end: None, had_double_click: false },
        MouseEventKind::LeftDrag => {
            let page = scrolled_page(area, page_start, content, mouse.column, mouse.row);
            let end = position_in_content(area, content, page, s.init, mouse.column, mouse.row);
            let start = if s.init is Some && end is Some {
                if in_order(s.init->0, end->0) { s.init } else { Some(moved_back(s.init->0, content)) }
            } else {
                s.start
            };
            SelectState { start, end, had_double_click: false, ..s }
        },
        MouseEventKind::LeftUp => s,
        _ => SelectState { had_double_click: false, ..s },
    }
}

/// Context for the selected text.
pub struct SelectContext {
    pub start: Option<ContentPosition>,
    pub end: Option<ContentPosition>,
    init: Option<ContentPosition>,
    had_double_click: bool,
}

impl View for SelectContext {
    type V = SelectState;

    closed spec fn view(&self) -> SelectState {
        SelectState { start: self.start, end: self.end, init: self.init, had_double_click: self.had_double_click }
    }
}

impl Default for SelectContext {
    fn default() -> (r: Self)
        ensures
            r@ == (SelectState { start: None, end: None, init: None, had_double_click: false }),
    {
        SelectContext { start: None, end: None, init: None, had_double_click: false }
    }
}

impl SelectContext {
    /// Clears the current selection.
    pub fn clear_selection(&mut self)
        ensures
            final(self)@ == cleared(old(self)@),
    {
        self.start = None;
        self.end = None;
        self.init = None;
    }

    /// Clears the current selection start (if end is not set) or adjusts the `init` of the selection
    /// to match situation when cursor is after selection start.
    pub fn adjust_selection(&mut self)
        ensures
            old(self)@.end is None ==> final(self)@ == (SelectState { start: None, init: None, ..old(self)@ }),
            old(self)@.end is Some ==> final(self)@ == (SelectState { init: old(self)@.start, ..old(self)@ }),
    {
        if self.end.is_none() {
            self.start = None;
            self.init = None;
        } else {
            self.init = self.start;
        }
    }

    /// Returns a text selection.
    pub fn get_selection(&self) -> (r: Option<Selection>)
        ensures
            r == (if self@.start is Some && self@.end is Some {
                Some(Selection { start: self@.start->0, end: self@.end->0 })
            } else {
                None
            }),
    {
        match (self.start, self.end) {
            (Some(start), Some(end)) => Some(Selection::new(start, end)),
            _ => None,
        }
    }

    /// Process UI key/mouse event.
    pub fn process_event<T: Content>(
        &mut self,
        event: &TuiEvent,
        content: &mut T,
        page_start: &mut ContentPosition,
        cursor: Option<ContentPosition>,
        area: Rect,
    )
        requires
            scroll_fits(area, *old(page_start)),
        ensures
            *final(content) == *old(content),
            match *event {
                TuiEvent::Key(key) => {
                    &&& final(self)@ == after_key(old(self)@, key, &*old(content), cursor)
                    &&& *final(page_start) == *old(page_start)
                },
                TuiEvent::Mouse(mouse) => {
                    &&& final(self)@ == after_mouse(old(self)@, mouse, &*old(content), *old(page_start), area)
                    &&& *final(page_start) == if mouse.kind == MouseEventKind::LeftDrag {
                        scrolled_page(area, *old(page_start), &*old(content), mouse.column, mouse.row)
                    } else {
                        *old(page_start)
                    }
                },
                TuiEvent::Command => final(self)@ == old(self)@ && *final(page_start) == *old(page_start),
            },
    {
        match event {
            TuiEvent::Key(key) => self.process_key_event(key, content, cursor),
            TuiEvent::Mouse(mouse) => self.process_mouse_event(*mouse, content, page_start, area),
            TuiEvent::Command => {},
        }
    }

    /// Updates selection end to the current cursor position only for appropriate key combinations.\
    /// **Note** that it must be executed only in edit mode and after processing edit events.
    pub fn process_event_final<T: Content>(&mut self, event: &TuiEvent, content: &T, cursor: ContentPosition)
        ensures
            match *event {
                TuiEvent::Key(key) => final(self)@ == after_key_final(old(self)@, key, content, cursor),
                _ => final(self)@ == old(self)@,
            },
    {
        let key = match event {
            TuiEvent::Key(key) => key,
            _ => {
                return;
            },
        };
        if key.modifiers == KeyModifiers::shift() && self.init.is_some() && is_allowed_key_code(key.code) {
            let init = self.init.unwrap();
            if is_sorted(init, cursor) {
                self.start = self.init;
                if init == cursor {
                    self.end = None;
                } else {
                    self.end = Some(decrement_cursor_x(cursor, content));
                }
            } else {
                self.start = Some(decrement_cursor_x(init, content));
                self.end = Some(cursor);
            }
        } else if !is_ctrl_key(key, 'a') {
            self.clear_selection();
        }
    }

    fn process_key_event<T: Content>(&mut self, key: &KeyCombination, content: &T, cursor: Option<ContentPosition>)
        ensures
            final(self)@ == after_key(old(self)@, *key, content, cursor),
    {
        if is_ctrl_key(key, 'a') {
            let last = content.len().saturating_sub(1);
            self.init = Some(ContentPosition::new(0, 0));
            self.start = Some(ContentPosition::new(0, 0));
            self.end = Some(ContentPosition::new(content.line_size(last).saturating_sub(1), last));
            return;
        }
        let cursor = match cursor {
            Some(cursor) => cursor,
            None => {
                return;
            },
        };
        if key.modifiers != KeyModifiers::shift() {
            return;
        }
        if is_allowed_key_code(key.code) && self.init.is_none() {
            self.init = Some(cursor);
            self.start = Some(cursor);
        }
    }

    fn process_mouse_event<T: Content>(&mut self, mouse: MouseEvent, content: &mut T, page_start: &mut ContentPosition, area: Rect)
        requires
            scroll_fits(area, *old(page_start)),
        ensures
            *final(content) == *old(content),
            final(self)@ == after_mouse(old(self)@, mouse, &*old(content), *old(page_start), area),
            *final(page_start) == if mouse.kind == MouseEventKind::LeftDrag {
                scrolled_page(area, *old(page_start), &*old(content), mouse.column, mouse.row)
            } else {
                *old(page_start)
            },
    {
        let here = ScreenPosition::new(mouse.column, mouse.row);
        match mouse.kind {
            MouseEventKind::LeftDoubleClick => {
                if area.contains(here) {
                    match get_position_in_content(area, &*content, *page_start, None, mouse.column, mouse.row) {
                        Some(pos) => match content.word_bounds(pos) {
                            Some((start, end)) => {
                                self.init = Some(ContentPosition::new(start, pos.y));
                                self.start = self.init;
                                self.end = Some(ContentPosition::new(end, pos.y));
                            },
                            None => {},
                        },
                        None => {},
                    }
                }
                self.had_double_click = true;
            },
            MouseEventKind::LeftTripleClick => {
                if self.had_double_click && area.contains(here) {
                    match get_position_in_content(area, &*content, *page_start, None, mouse.column, mouse.row) {
                        Some(pos) => {
                            let line_end = content.line_size(pos.y).saturating_sub(1);
                            if line_end > 0 {
                                self.init = Some(ContentPosition::new(0, pos.y));
                                self.start = self.init;
                                self.end = Some(ContentPosition::new(line_end, pos.y));
                            }
                        },
                        None => {},
                    }
                }
                self.had_double_click = false;
            },
            MouseEventKind::LeftClick => {
                self.init = get_position_in_content(area, &*content, *page_start, None, mouse.column, mouse.row);
                self.start = self.init;
                self.end = None;
                self.had_double_click = false;
            },
            MouseEventKind::LeftDrag => {
                scroll_page_if_needed(area, page_start, content, mouse.column, mouse.row);
                self.end = get_position_in_content(area, &*content, *page_start, self.init, mouse.column, mouse.row);
                match (self.init, self.end) {
                    (Some(init), Some(end)) => {
                        if is_sorted(init, end) {
                            self.start = self.init;
                        } else {
                            self.start = Some(decrement_cursor_x(init, &*content));
                        }
                    },
                    _ => {},
                }
                self.had_double_click = false;
            },
            MouseEventKind::LeftUp => {},
            _ => {
                self.had_double_click = false;
            },
        }
    }
}

} // verus!
