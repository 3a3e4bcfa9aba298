use vstd::prelude::*;
use vstd::string::StrSliceExecFns;

use crate::content::Content;
use crate::edit::{edit_event_allowed, edit_event_result, EditContext, EditState};
use crate::events::{KeyCode, KeyModifiers, MouseEventKind, ResponseEvent, TuiEvent};
use crate::position::{get_search_wrapped_message, sat_add, sat_sub, sat_sub16, ContentPosition, MatchPosition, Rect, ScreenPosition, SearchData};
use crate::search_widget::{search_cells, SearchResultsWidget};
use crate::select_widget::{select_fits, selection_spans, ContentSelectWidget, SelectedSpan};
use crate::selection::{after_key, after_key_final, after_mouse, min_usize, scroll_fits, scrolled_page, SelectContext, SelectState, Selection};
use crate::strings::{digits, push_char, push_number, same_text};
use crate::edit::enabled_state;
use crate::lowercase::lower_lines;
use crate::strings::ascii_lower;
use crate::text::{removal_allowed, view_lines};
use crate::yaml::{
    first_match_from, inserted_end, model_insert_text, model_remove_text, plain_hash, text_insert_allowed, ContentModel, YamlContent,
};

verus! {

/// The state of a content viewer: the content, its hash when editing started, the edit and
/// selection states, the search, and the page shown.
pub struct ViewerState {
    pub content: Option<YamlContent>,
    pub hash: Option<u64>,
    pub edit: EditState,
    pub select: SelectState,
    pub pattern: Option<Seq<char>>,
    pub matches: Option<Seq<MatchPosition>>,
    pub current: Option<usize>,
    pub page_start: ContentPosition,
    pub page_area: Rect,
}

/// Largest first line of a page.
pub open spec fn max_vstart_of(v: ViewerState) -> usize {
    match v.content {
        Some(c) => sat_sub(c@.plain.len() as usize, v.page_area.height as usize),
        None => 0,
    }
}

/// Largest first column of a page.
pub open spec fn max_hstart_of(v: ViewerState) -> usize {
    match v.content {
        Some(c) => sat_sub(sat_add(c@.max_size, 1), v.page_area.width as usize),
        None => 0,
    }
}

/// The page start after scrolling so that `width` columns from `line:col` are shown: on each axis,
/// when they are off the page, the page is centred on them (held within the content).
pub open spec fn scrolled_to(v: ViewerState, line: usize, col: usize, width: usize) -> ContentPosition {
    let ps = v.page_start;
    let h = v.page_area.height;
    let w = v.page_area.width;
    let y = if line < ps.y || line > sat_add(ps.y, sat_sub16(h, 1) as usize) {
        min_usize(sat_sub(line, (h / 2) as usize), max_vstart_of(v))
    } else {
        ps.y
    };
    let x = if col < ps.x || sat_add(col, width) > sat_add(ps.x, sat_sub16(w, 1) as usize) {
        min_usize(sat_sub(col, (w / 2) as usize), max_hstart_of(v))
    } else {
        ps.x
    };
    ContentPosition { x, y }
}

/// The page start after scrolling to `m` shifted by `offset`.
pub open spec fn scrolled_to_match(v: ViewerState, m: MatchPosition, offset: ScreenPosition) -> ContentPosition {
    scrolled_to(v, sat_add(m.y, offset.y as usize), sat_add(m.x, offset.x as usize), m.length)
}

/// The page start after scrolling to the highlighted match (the first one when none is).
pub open spec fn scrolled_to_current(v: ViewerState, offset: Option<ScreenPosition>) -> ContentPosition {
    let off = match offset {
        Some(o) => o,
        None => ScreenPosition { x: 0, y: 0 },
    };
    match v.matches {
        Some(ms) => match v.current {
            Some(c) => scrolled_to_match(v, ms[sat_sub(c, 1) as int], off),
            None => if ms.len() > 0 { scrolled_to_match(v, ms[0], off) } else { v.page_start },
        },
        None => v.page_start,
    }
}

/// The highlighted match (counted from 1) after moving forward or backward through `total` matches:
/// past the last or before the first none is highlighted, and moving on from none starts at the
/// first or the last; with a single match nothing changes.
pub open spec fn next_match(current: Option<usize>, total: nat, forward: bool) -> Option<usize> {
    if total > 1 {
        match current {
            Some(c) => if forward {
                if sat_add(c, 1) > total { None } else { Some(sat_add(c, 1)) }
            } else {
                if sat_sub(c, 1) == 0 { None } else { Some(sat_sub(c, 1)) }
            },
            None => Some(if forward { 1 } else { total as usize }),
        }
    } else {
        current
    }
}

/// The state after moving to the next or previous match and scrolling to it.
pub open spec fn navigated(v: ViewerState, forward: bool, offset: Option<ScreenPosition>) -> ViewerState {
    let total = match v.matches {
        Some(ms) => ms.len(),
        None => 0,
    };
    if total == 0 {
        v
    } else {
        let current = next_match(v.current, total, forward);
        let v1 = ViewerState { current, ..v };
        let page = if current is Some {
            scrolled_to_current(v1, offset)
        } else if total == 1 {
            let off = match offset {
                Some(o) => o,
                None => ScreenPosition { x: 0, y: 0 },
            };
            scrolled_to_match(v1, v.matches->0[0], off)
        } else {
            v.page_start
        };
        ViewerState { page_start: page, ..v1 }
    }
}

/// The page start after a key or mouse action that scrolls the page, if it is one.
pub open spec fn scrolled_by_event(v: ViewerState, event: TuiEvent) -> Option<ContentPosition> {
    let ps = v.page_start;
    let w = v.page_area.width as usize;
    let h = v.page_area.height as usize;
    let ctrl = KeyModifiers { control: true, ..KeyModifiers::spec_none() };
    match event {
        TuiEvent::Key(key) => if key.code is Home && key.modifiers == ctrl {
            Some(ContentPosition { x: 0, ..ps })
        } else if key.code is PageUp && key.modifiers == ctrl {
            Some(ContentPosition { x: sat_sub(ps.x, w), ..ps })
        } else if key.code is Left {
            Some(ContentPosition { x: sat_sub(ps.x, 1), ..ps })
        } else if key.code is Right {
            Some(ContentPosition { x: sat_add(ps.x, 1), ..ps })
        } else if key.code is PageDown && key.modifiers == ctrl {
            Some(ContentPosition { x: sat_add(ps.x, w), ..ps })
        } else if key.code is End && key.modifiers == ctrl {
            Some(ContentPosition { x: max_hstart_of(v), ..ps })
        } else if key.code is Home {
            Some(ContentPosition { y: 0, ..ps })
        } else if key.code is PageUp {
            Some(ContentPosition { y: sat_sub(ps.y, h), ..ps })
        } else if key.code is Up {
            Some(ContentPosition { y: sat_sub(ps.y, 1), ..ps })
        } else if key.code is Down {
            Some(ContentPosition { y: sat_add(ps.y, 1), ..ps })
        } else if key.code is PageDown {
            Some(ContentPosition { y: sat_add(ps.y, h), ..ps })
        } else if key.code is End {
            Some(ContentPosition { y: max_vstart_of(v), ..ps })
        } else {
            None
        },
        TuiEvent::Mouse(mouse) => if mouse.kind == MouseEventKind::ScrollUp && mouse.modifiers == ctrl {
            Some(ContentPosition { x: sat_sub(ps.x, 1), ..ps })
        } else if mouse.kind == MouseEventKind::ScrollDown && mouse.modifiers == ctrl {
            Some(ContentPosition { x: sat_add(ps.x, 1), ..ps })
        } else if mouse.kind == MouseEventKind::ScrollLeft {
            Some(ContentPosition { x: sat_sub(ps.x, 1), ..ps })
        } else if mouse.kind == MouseEventKind::ScrollRight {
            Some(ContentPosition { x: sat_add(ps.x, 1), ..ps })
        } else if mouse.kind == MouseEventKind::ScrollUp {
            Some(ContentPosition { y: sat_sub(ps.y, 1), ..ps })
        } else if mouse.kind == MouseEventKind::ScrollDown {
            Some(ContentPosition { y: sat_add(ps.y, 1), ..ps })
        } else {
            None
        },
        TuiEvent::Command => None,
    }
}

/// `page` held within the content.
pub open spec fn held_page(v: ViewerState, page: ContentPosition) -> ContentPosition {
    ContentPosition {
        x: min_usize(page.x, max_hstart_of(v)),
        y: min_usize(page.y, max_vstart_of(v)),
    }
}

/// The selection of a selection state, when both its ends are set.
pub open spec fn selection_of(s: SelectState) -> Option<Selection> {
    if s.start is Some && s.end is Some {
        Some(Selection { start: s.start->0, end: s.end->0 })
    } else {
        None
    }
}

/// The selection state after `adjust_selection`: cleared when it has no end, otherwise started from
/// its start.
pub open spec fn adjusted(s: SelectState) -> SelectState {
    if s.end is None {
        SelectState { start: None, init: None, ..s }
    } else {
        SelectState { init: s.start, ..s }
    }
}

/// Where the cursor starts in a new resource: at the end of the first `  name: ''` line (ASCII
/// case-insensitive), if there is one.
pub open spec fn name_field_position(m: ContentModel) -> Option<ContentPosition> {
    match first_match_from(lower_lines(m.plain), ascii_lower("  name: ''"@), 0) {
        Some(found) => Some(ContentPosition { x: sat_add(found.x, sat_sub(found.length, 1)), y: found.y }),
        None => None,
    }
}

/// The position of the highlighted match (the first one when none is).
pub open spec fn match_position(v: ViewerState) -> Option<ContentPosition> {
    match v.matches {
        Some(ms) => {
            let m = ms[sat_sub(
                match v.current {
                    Some(c) => c,
                    None => 0,
                },
                1,
            ) as int];
            Some(ContentPosition { x: m.x, y: m.y })
        },
        None => None,
    }
}

/// The state after edit mode is turned on (see [`ContentViewer::enable_edit_mode`]).
pub open spec fn edit_enabled(v: ViewerState, is_new: bool) -> ViewerState {
    let c = v.content->0;
    let cursor_start = if is_new { name_field_position(c@) } else { match_position(v) };
    let select = adjusted(v.select);
    let edit = enabled_state(v.edit, v.page_start, selection_of(select), cursor_start, v.page_area.height, &c);
    let hash = if v.hash is None { Some(plain_hash(c@)) } else { v.hash };
    let v1 = ViewerState { select, edit, hash, ..v };
    ViewerState { page_start: scrolled_to(v1, edit.cursor.y, edit.cursor.x, 1), ..v1 }
}

/// The response of the edit mode to an event.
pub open spec fn edit_response(event: TuiEvent) -> ResponseEvent {
    match event {
        TuiEvent::Mouse(mouse) => if mouse.kind == MouseEventKind::LeftClick {
            ResponseEvent::Handled
        } else {
            ResponseEvent::NotHandled
        },
        _ => ResponseEvent::Handled,
    }
}

/// The selection state after the selection processed an event.
pub open spec fn select_after_event(v: ViewerState, event: TuiEvent, c: &YamlContent) -> SelectState {
    let cursor = if v.edit.enabled { Some(v.edit.cursor) } else { None };
    match event {
        TuiEvent::Key(key) => after_key(v.select, key, c, cursor),
        TuiEvent::Mouse(mouse) => after_mouse(v.select, mouse, c, v.page_start, v.page_area),
        TuiEvent::Command => v.select,
    }
}

/// The page start after the selection processed an event (a drag scrolls the page).
pub open spec fn page_after_select(v: ViewerState, event: TuiEvent, c: &YamlContent) -> ContentPosition {
    match event {
        TuiEvent::Mouse(mouse) => if mouse.kind == MouseEventKind::LeftDrag {
            scrolled_page(v.page_area, v.page_start, c, mouse.column, mouse.row)
        } else {
            v.page_start
        },
        _ => v.page_start,
    }
}

/// The selection state after an edit moved the cursor to `cursor`.
pub open spec fn select_after_edit(s: SelectState, event: TuiEvent, c: &YamlContent, cursor: ContentPosition) -> SelectState {
    match event {
        TuiEvent::Key(key) => after_key_final(s, key, c, cursor),
        _ => s,
    }
}

/// The state and response after an event that scrolls the page (not handled when it does not).
pub open spec fn scroll_outcome(v: ViewerState, event: TuiEvent) -> (ViewerState, ResponseEvent) {
    match scrolled_by_event(v, event) {
        Some(p) => (ViewerState { page_start: held_page(v, p), ..v }, ResponseEvent::Handled),
        None => (v, ResponseEvent::NotHandled),
    }
}

/// The inputs on which inserting text into the viewer's content is defined: the selection can be
/// removed, and the text can then be inserted.
pub open spec fn insert_allowed(v: ViewerState, text: Seq<Seq<char>>, on_line_start: bool) -> bool {
    let c = v.content->0;
    let sel = selection_of(v.select);
    let m1 = match sel {
        Some(range) => model_remove_text(c@, range),
        None => c@,
    };
    let cursor = match sel {
        Some(range) => range.start,
        None => v.edit.cursor,
    };
    &&& sel is Some ==> removal_allowed(c@.plain, sel->0)
    &&& if on_line_start && text.len() == 2 {
        &&& text_insert_allowed(m1, ContentPosition { x: 0, y: cursor.y }, text)
        &&& cursor.y + 1 <= usize::MAX
    } else {
        text_insert_allowed(m1, cursor, text)
    }
}

/// The content and the cursor after inserting text into the viewer's content.
pub open spec fn text_inserted(v: ViewerState, text: Seq<Seq<char>>, on_line_start: bool) -> (ContentModel, ContentPosition) {
    let c = v.content->0;
    let sel = selection_of(v.select);
    let m1 = match sel {
        Some(range) => model_remove_text(c@, range),
        None => c@,
    };
    let cursor = match sel {
        Some(range) => range.start,
        None => v.edit.cursor,
    };
    if on_line_start && text.len() == 2 {
        (model_insert_text(m1, ContentPosition { x: 0, y: cursor.y }, text), ContentPosition { x: cursor.x, y: (cursor.y + 1) as usize })
    } else {
        (model_insert_text(m1, cursor, text), inserted_end(m1, cursor, text))
    }
}

/// Content viewer: shows content page by page, with selection, search and an edit mode.
pub struct ContentViewer {
    content: Option<YamlContent>,
    hash: Option<u64>,
    edit: EditContext,
    select: SelectContext,
    search: SearchData,
    page_start: ContentPosition,
    page_area: Rect,
}

impl View for ContentViewer {
    type V = ViewerState;

    closed spec fn view(&self) -> ViewerState {
        ViewerState {
            content: self.content,
            hash: self.hash,
            edit: self.edit@,
            select: self.select@,
            pattern: match self.search.pattern {
                Some(p) => Some(p@),
                None => None,
            },
            matches: match self.search.matches {
                Some(ms) => Some(ms@),
                None => None,
            },
            current: self.search.current,
            page_start: self.page_start,
            page_area: self.page_area,
        }
    }
}

impl ContentViewer {
    /// The content is well formed, and a highlighted match is one of the matches.
    pub closed spec fn wf(&self) -> bool {
        &&& self.content is Some ==> self.content->0.wf()
        &&& self.search.current is Some ==> {
            &&& self.search.matches is Some
            &&& 1 <= self.search.current->0 <= self.search.matches->0@.len()
        }
    }

    /// Whether the content can be edited.
    pub closed spec fn can_edit(&self) -> bool {
        self.content is Some && self.content->0.editable()
    }

    /// Creates a new content viewer for a page of the given size.
    pub fn new(area: Rect) -> (r: Self)
        ensures
            r.wf(),
            r@.content is None,
            r@.hash is None,
            r@.edit == (EditState { enabled: false, modified: false, cursor: ContentPosition { x: 0, y: 0 }, last_set_x: 0 }),
            r@.select == (SelectState { start: None, end: None, init: None, had_double_click: false }),
            r@.pattern is None && r@.matches is None && r@.current is None,
            r@.page_start == (ContentPosition { x: 0, y: 0 }),
            r@.page_area == area,
    {
        ContentViewer {
            content: None,
            hash: None,
            edit: EditContext::new(),
            select: SelectContext::default(),
            search: SearchData::new(),
            page_start: ContentPosition::new(0, 0),
            page_area: area,
        }
    }

    /// Returns `true` if viewer has content.
    pub fn has_content(&self) -> (r: bool)
        ensures
            r == self@.content is Some,
    {
        self.content.is_some()
    }

    /// Sets content for the viewer.
    pub fn set_content(&mut self, content: YamlContent)
        requires
            content.wf(),
        ensures
            final(self).wf(),
            final(self)@ == (ViewerState { content: Some(content), pattern: None, matches: None, current: None, ..old(self)@ }),
            final(self).can_edit() == content.editable(),
    {
        self.content = Some(content);
        self.search = SearchData::new();
    }

    /// Returns content as reference.
    pub fn content(&self) -> (r: Option<&YamlContent>)
        ensures
            match r {
                Some(c) => self@.content == Some(*c),
                None => self@.content is None,
            },
    {
        match &self.content {
            Some(c) => Some(c),
            None => None,
        }
    }

    /// Clears the current selection.
    pub fn clear_selection(&mut self)
        requires
            old(self).wf(),
        ensures
            final(self).wf(),
            final(self)@ == (ViewerState {
                select: SelectState { start: None, end: None, init: None, ..old(self)@.select },
                ..old(self)@
            }),
    {
        self.select.clear_selection();
    }

    /// Returns selection range if anything is selected.
    pub fn get_selection(&self) -> (r: Option<Selection>)
        ensures
            r == selection_of(self@.select),
    {
        self.select.get_selection()
    }

    /// Returns `true` if there is selected text in the content.
    pub fn has_selection(&self) -> (r: bool)
        ensures
            r == (self@.content is Some && self@.select.start is Some && self@.select.end is Some),
    {
        self.content.is_some() && self.select.get_selection().is_some()
    }

    /// Returns `true` if viewer is in edit mode.
    pub fn is_in_edit_mode(&self) -> (r: bool)
        ensures
            r == self@.edit.enabled,
    {
        self.edit.enabled()
    }

    /// Returns `true` if content was altered.\
    /// **Note** that we must be still in the edit mode to actually run the check.
    pub fn is_modified(&self) -> (r: bool)
        ensures
            !self@.edit.enabled ==> r == self@.edit.modified,
            self@.edit.enabled ==> r == match (self@.hash, self@.content) {
                (Some(h), Some(c)) => plain_hash(c@) != h,
                _ => false,
            },
    {
        if !self.edit.enabled() {
            return self.edit.modified();
        }
        match (self.hash, &self.content) {
            (Some(hash), Some(content)) => content.hash() != hash,
            _ => false,
        }
    }

    /// Returns max vertical start of the page.
    fn max_vstart(&self) -> (r: usize)
        ensures
            r == max_vstart_of(self@),
    {
        match &self.content {
            Some(c) => c.max_vstart(self.page_area.height),
            None => 0,
        }
    }

    /// Returns max horizontal start of the page.
    fn max_hstart(&self) -> (r: usize)
        ensures
            r == max_hstart_of(self@),
    {
        match &self.content {
            Some(c) => c.max_hstart(self.page_area.width),
            None => 0,
        }
    }

    /// Scrolls the view to the given `line` and `col` positions if they are outside the current viewport.
    pub fn scroll_to(&mut self, line: usize, col: usize, width: usize)
        requires
            old(self).wf(),
        ensures
            final(self).wf(),
            final(self)@ == (ViewerState { page_start: scrolled_to(old(self)@, line, col, width), ..old(self)@ }),
    {
        let h = self.page_area.height;
        let w = self.page_area.width;
        if line < self.page_start.y || line > self.page_start.y.saturating_add(h.saturating_sub(1) as usize) {
            let line = line.saturating_sub((h / 2) as usize);
            let max = self.max_vstart();
            self.page_start.y = if line < max { line } else { max };
        }
        if col < self.page_start.x || col.saturating_add(width) > self.page_start.x.saturating_add(w.saturating_sub(1) as usize) {
            let col = col.saturating_sub((w / 2) as usize);
            let max = self.max_hstart();
            self.page_start.x = if col < max { col } else { max };
        }
    }

    /// Scrolls content to the current search match.
    pub fn scroll_to_current_match(&mut self, offset: Option<ScreenPosition>)
        requires
            old(self).wf(),
        ensures
            final(self).wf(),
            final(self)@ == (ViewerState { page_start: scrolled_to_current(old(self)@, offset), ..old(self)@ }),
    {
        let offset = match offset {
            Some(o) => o,
            None => ScreenPosition::new(0, 0),
        };
        let target = match &self.search.matches {
            Some(matches) => match self.search.current {
                Some(current) => Some(matches[current - 1]),
                None => if matches.len() > 0 {
                    Some(matches[0])
                } else {
                    None
                },
            },
            None => None,
        };
        match target {
            Some(m) => self.scroll_to(m.y.saturating_add(offset.y as usize), m.x.saturating_add(offset.x as usize), m.length),
            None => {},
        }
    }

    /// Scrolls to the current cursor position.
    pub fn scroll_to_cursor(&mut self)
        requires
            old(self).wf(),
        ensures
            final(self).wf(),
            final(self)@ == (ViewerState {
                page_start: scrolled_to(old(self)@, old(self)@.edit.cursor.y, old(self)@.edit.cursor.x, 1),
                ..old(self)@
            }),
    {
        let cursor = self.edit.cursor_position();
        let (y, x) = (cursor.y, cursor.x);
        self.scroll_to(y, x, 1);
    }

    /// Scrolls content to the end.
    pub fn scroll_to_end(&mut self)
        requires
            old(self).wf(),
        ensures
            final(self).wf(),
            final(self)@ == (ViewerState { page_start: ContentPosition { y: max_vstart_of(old(self)@), ..old(self)@.page_start }, ..old(self)@ }),
    {
        self.page_start.y = self.max_vstart();
    }

    /// Returns current page position.
    pub fn page_position(&self) -> (r: ContentPosition)
        ensures
            r == self@.page_start,
    {
        self.page_start
    }

    /// Sets new page start for the content.
    pub fn set_page_start(&mut self, line: usize)
        requires
            old(self).wf(),
        ensures
            final(self).wf(),
            final(self)@ == (ViewerState {
                page_start: ContentPosition { y: min_usize(line, max_vstart_of(old(self)@)), ..old(self)@.page_start },
                ..old(self)@
            }),
    {
        let max = self.max_vstart();
        self.page_start.y = if line < max { line } else { max };
    }

    /// Returns `true` if view is showing content from the first line.
    pub fn is_at_beginning(&self) -> (r: bool)
        ensures
            r == (self@.page_start.y == 0),
    {
        self.page_start.y == 0
    }

    /// Returns `true` if view is showing the last part of the content.
    pub fn is_at_end(&self) -> (r: bool)
        ensures
            r == (self@.page_start.y == max_vstart_of(self@)),
    {
        self.page_start.y == self.max_vstart()
    }

    /// Resets horizontal scroll to start position.
    pub fn reset_horizontal_scroll(&mut self)
        requires
            old(self).wf(),
        ensures
            final(self).wf(),
            final(self)@ == (ViewerState { page_start: ContentPosition { x: 0, ..old(self)@.page_start }, ..old(self)@ }),
    {
        self.page_start.x = 0;
    }

    /// Searches content for the specified pattern.\
    /// Returns `true` if the search was updated.
    pub fn search(&mut self, pattern: &str, force: bool) -> (r: bool)
        requires
            old(self).wf(),
        ensures
            final(self).wf(),
            ({
                let v = old(self)@;
                let changed = v.pattern is None || v.pattern->0 != pattern@;
                &&& r == (v.content is Some && (force || changed))
                &&& !r ==> final(self)@ == v
                &&& r && pattern@.len() == 0 ==> final(self)@ == (ViewerState { pattern: None, matches: None, current: None, ..v })
                &&& r && pattern@.len() > 0 ==> {
                    let found = final(self)@.matches->0;
                    &&& found == v.content->0@.search_results(pattern@)
                    &&& final(self)@ == (ViewerState {
                        pattern: Some(pattern@),
                        matches: Some(found),
                        current: if changed || (match v.current {
                            Some(c) => c,
                            None => 0,
                        }) > found.len() {
                            None
                        } else {
                            v.current
                        },
                        ..v
                    })
                }
            }),
    {
        let changed = match &self.search.pattern {
            Some(p) => !same_text(p.as_str(), pattern),
            None => true,
        };
        match &self.content {
            Some(content) => {
                if !(force || changed) {
                    return false;
                }
                if pattern.unicode_len() == 0 {
                    self.search = SearchData::new();
                } else {
                    let matches = content.search(pattern);
                    let current = match self.search.current {
                        Some(c) => c,
                        None => 0,
                    };
                    if changed || current > matches.len() {
                        self.search.current = None;
                    }
                    self.search.pattern = Some(pattern.to_owned());
                    self.search.matches = Some(matches);
                }
                true
            },
            None => false,
        }
    }

    /// Returns the number of search matches.
    pub fn matches_count(&self) -> (r: Option<usize>)
        ensures
            match self@.matches {
                Some(ms) => r is Some && r->0 == ms.len(),
                None => r is None,
            },
    {
        match &self.search.matches {
            Some(ms) => Some(ms.len()),
            None => None,
        }
    }

    /// Returns currently highlighted match index.
    pub fn current_match_index(&self) -> (r: Option<usize>)
        ensures
            r == self@.current,
    {
        self.search.current
    }

    /// Returns currently highlighted match position.\
    /// **Note** that it returns first match if all are highlighted.
    pub fn current_match_position(&self) -> (r: Option<ContentPosition>)
        requires
            self.wf(),
            self@.matches is Some ==> self@.matches->0.len() > 0,
        ensures
            r == match self@.matches {
                Some(ms) => {
                    let m = ms[sat_sub(
                        match self@.current {
                            Some(c) => c,
                            None => 0,
                        },
                        1,
                    ) as int];
                    Some(ContentPosition { x: m.x, y: m.y })
                },
                None => None,
            },
    {
        match &self.search.matches {
            Some(matches) => {
                let current = match self.search.current {
                    Some(c) => c,
                    None => 0,
                };
                let m = matches[current.saturating_sub(1)];
                Some(ContentPosition { x: m.x, y: m.y })
            },
            None => None,
        }
    }

    /// Updates the current match index in the search results based on navigation direction.\
    /// **Note** that updated index will start from 1.
    pub fn navigate_match(&mut self, forward: bool, offset: Option<ScreenPosition>)
        requires
            old(self).wf(),
        ensures
            final(self).wf(),
            final(self)@ == navigated(old(self)@, forward, offset),
    {
        let total = match &self.search.matches {
            Some(ms) => ms.len(),
            None => 0,
        };
        if total == 0 {
            return;
        }
        if total > 1 {
            self.search.current = match self.search.current {
                Some(current) => {
                    if forward {
                        let current = current.saturating_add(1);
                        if current > total {
                            None
                        } else {
                            Some(current)
                        }
                    } else {
                        let current = current.saturating_sub(1);
                        if current == 0 {
                            None
                        } else {
                            Some(current)
                        }
                    }
                },
                None => Some(if forward { 1 } else { total }),
            };
        }
        if self.search.current.is_some() {
            self.scroll_to_current_match(offset);
        } else if total == 1 {
            let off = match offset {
                Some(o) => o,
                None => ScreenPosition::new(0, 0),
            };
            let first = match &self.search.matches {
                Some(ms) => ms[0],
                None => MatchPosition::new(0, 0, 0),
            };
            self.scroll_to(first.y.saturating_add(off.y as usize), first.x.saturating_add(off.x as usize), first.length);
        }
    }

    /// Gets footer icon text for the current search state.
    pub fn get_footer_text(&self) -> (r: Option<String>)
        ensures
            match self@.matches {
                Some(ms) => r is Some && r->0@ == match self@.current {
                    Some(c) => seq![' '] + digits(c as nat) + seq![':'] + digits(ms.len()),
                    None => if ms.len() == 0 {
                        seq![' '] + digits(0)
                    } else {
                        seq![' ', ':'] + digits(ms.len())
                    },
                },
                None => r is None,
            },
    {
        match self.matches_count() {
            Some(count) => {
                let mut text = String::new();
                push_char(&mut text, ' ');
                match self.current_match_index() {
                    Some(current) => {
                        push_number(&mut text, current);
                        push_char(&mut text, ':');
                        push_number(&mut text, count);
                    },
                    None => {
                        if count == 0 {
                            push_number(&mut text, count);
                        } else {
                            push_char(&mut text, ':');
                            push_number(&mut text, count);
                        }
                    },
                }
                assert(text@ =~= match self@.current {
                    Some(c) => seq![' '] + digits(c as nat) + seq![':'] + digits(count as nat),
                    None => if count == 0 {
                        seq![' '] + digits(0)
                    } else {
                        seq![' ', ':'] + digits(count as nat)
                    },
                });
                Some(text)
            },
            None => None,
        }
    }

    /// Gets footer message for the current search state.
    pub fn get_footer_message(&self, forward: bool) -> (r: Option<&'static str>)
        ensures
            match r {
                Some(m) => self@.matches is Some && self@.current == Some(0usize) && m@ == (if forward {
                    "Reached end of search results"@
                } else {
                    "Reached start of search results"@
                }),
                None => !(self@.matches is Some && self@.current == Some(0usize)),
            },
    {
        if self.matches_count().is_some() && self.current_match_index() == Some(0usize) {
            Some(get_search_wrapped_message(forward))
        } else {
            None
        }
    }

    /// Returns text of the line under the cursor.\
    /// **Note** that it works only in edit mode (when the cursor is visible).
    pub fn get_current_line(&self) -> (r: Option<&str>)
        ensures
            match r {
                Some(l) => {
                    &&& self@.edit.enabled
                    &&& self@.content is Some
                    &&& self@.edit.cursor.y < self@.content->0@.plain.len()
                    &&& l@ == self@.content->0@.plain[self@.edit.cursor.y as int]
                },
                None => !self@.edit.enabled || self@.content is None || self@.edit.cursor.y >= self@.content->0@.plain.len(),
            },
    {
        if self.edit.enabled() {
            match &self.content {
                Some(c) => c.line(self.edit.cursor_position().y),
                None => None,
            }
        } else {
            None
        }
    }

    /// Enables edit mode for the content viewer.
    pub fn enable_edit_mode(&mut self, is_new: bool) -> (r: bool)
        requires
            old(self).wf(),
            old(self)@.page_start.y + old(self)@.page_area.height <= usize::MAX,
            !(is_new && old(self)@.content is Some) && old(self)@.matches is Some ==> old(self)@.matches->0.len() > 0,
        ensures
            final(self).wf(),
            r == (!old(self)@.edit.enabled && old(self)@.content is Some && old(self)@.content->0.editable()),
            !r ==> final(self)@ == old(self)@,
            r ==> final(self)@ == edit_enabled(old(self)@, is_new),
    {
        if self.edit.enabled() {
            return false;
        }
        let cursor_start = if is_new && self.content.is_some() {
            match &self.content {
                Some(content) => match content.search_first("  name: ''") {
                    Some(start) => Some(ContentPosition::new(start.x.saturating_add(start.length.saturating_sub(1)), start.y)),
                    None => None,
                },
                None => None,
            }
        } else {
            self.current_match_position()
        };
        let editable = match &self.content {
            Some(content) => content.is_editable(),
            None => false,
        };
        if !editable {
            return false;
        }
        let mut content = self.content.take().unwrap();
        self.select.adjust_selection();
        let selection = self.select.get_selection();
        self.edit.enable(self.page_start, selection, cursor_start, self.page_area.height, &mut content);
        if self.hash.is_none() {
            self.hash = Some(content.hash());
        }
        self.content = Some(content);
        self.scroll_to_cursor();
        true
    }

    /// Disables edit mode for the content viewer.
    pub fn disable_edit_mode(&mut self) -> (r: bool)
        requires
            old(self).wf(),
        ensures
            final(self).wf(),
            r == old(self)@.edit.enabled,
            !r ==> final(self)@ == old(self)@,
            r ==> final(self)@ == (ViewerState {
                edit: EditState {
                    enabled: false,
                    modified: match (old(self)@.hash, old(self)@.content) {
                        (Some(h), Some(c)) => plain_hash(c@) != h,
                        _ => false,
                    },
                    ..old(self)@.edit
                },
                ..old(self)@
            }),
    {
        if self.edit.enabled() {
            let modified = self.is_modified();
            self.edit.leave(modified);
            true
        } else {
            false
        }
    }

    /// Inserts specified text to the content at the current cursor position (replacing the
    /// selection). `on_line_start` - adds text at the start of the current line if text is a line
    /// from Ctrl+C/Ctrl+X.
    pub fn insert_text(&mut self, text: Vec<String>, on_line_start: bool)
        requires
            old(self).wf(),
            old(self)@.content is Some ==> insert_allowed(old(self)@, view_lines(text@), on_line_start),
        ensures
            final(self).wf(),
            old(self)@.content is None ==> final(self)@ == old(self)@,
            old(self)@.content is Some ==> {
                let (m, cursor) = text_inserted(old(self)@, view_lines(text@), on_line_start);
                &&& final(self)@.content is Some
                &&& final(self)@.content->0@ == m
                &&& final(self)@.content->0.editable() == old(self)@.content->0.editable()
                &&& final(self)@ == (ViewerState {
                    content: final(self)@.content,
                    edit: EditState { cursor, ..old(self)@.edit },
                    select: SelectState { start: None, end: None, init: None, ..old(self)@.select },
                    ..old(self)@
                })
            },
    {
        if self.content.is_none() {
            return;
        }
        let mut content = self.content.take().unwrap();
        match self.select.get_selection() {
            Some(range) => {
                self.edit.set_cursor(range.start);
                content.remove_text(range);
            },
            None => {},
        }
        self.select.clear_selection();
        let cursor = self.edit.cursor_position();
        let new_pos = if on_line_start && text.len() == 2 {
            content.insert_text(ContentPosition::new(0, cursor.y), text);
            ContentPosition::new(cursor.x, cursor.y + 1)
        } else {
            content.insert_text(cursor, text)
        };
        self.edit.set_cursor(new_pos);
        self.content = Some(content);
    }

    /// Returns the screen cells that search highlighting colours when the page is drawn on `area`,
    /// the matches moved by `offset`.
    pub fn search_highlights(&self, area: Rect, offset: Option<ScreenPosition>) -> (r: Vec<ScreenPosition>)
        requires
            self.wf(),
        ensures
            r@ == search_cells(self@.matches, self@.current, self@.page_start, area, offset),
    {
        let widget = SearchResultsWidget::new(self.page_start, &self.search).with_offset(offset);
        widget.highlighted_cells(area)
    }

    /// Returns the spans that selection highlighting colours when the page is drawn on `area`
    /// (none without content).
    pub fn selection_spans(&self, area: Rect) -> (r: Vec<SelectedSpan>)
        requires
            self@.content is Some ==> select_fits(&self@.content->0, self@.page_start, area),
        ensures
            r@ == match self@.content {
                Some(c) => selection_spans(&c, self@.page_start, self@.select, area),
                None => Seq::empty(),
            },
    {
        match &self.content {
            Some(content) => ContentSelectWidget::new(&self.select, content, &self.page_start).highlighted_spans(area),
            None => Vec::new(),
        }
    }

    /// Process UI key/mouse event.
    pub fn process_event(&mut self, event: &TuiEvent) -> (r: ResponseEvent)
        requires
            old(self).wf(),
            scroll_fits(old(self)@.page_area, old(self)@.page_start),
            old(self)@.content is Some && old(self)@.edit.enabled ==> {
                let c = old(self)@.content->0;
                edit_event_allowed(c@, *event, selection_of(select_after_event(old(self)@, *event, &c)), old(self)@.edit.cursor)
            },
        ensures
            final(self).wf(),
            ({
                let v = old(self)@;
                match v.content {
                    None => (final(self)@, r) == scroll_outcome(v, *event),
                    Some(c) => {
                        let select = select_after_event(v, *event, &c);
                        let page = page_after_select(v, *event, &c);
                        if v.edit.enabled {
                            let c2 = final(self)@.content->0;
                            let e2 = final(self)@.edit;
                            let v2 = ViewerState { content: Some(c2), edit: e2, select, page_start: page, ..v };
                            &&& final(self)@.content is Some
                            &&& c2.wf()
                            &&& c2.editable() == c.editable()
                            &&& edit_event_result(v.edit, c, *event, page, selection_of(select), v.page_area, e2, c2, edit_response(*event))
                            &&& if edit_response(*event) != ResponseEvent::NotHandled {
                                &&& r == edit_response(*event)
                                &&& final(self)@ == (ViewerState {
                                    select: select_after_edit(select, *event, &c2, e2.cursor),
                                    page_start: scrolled_to(v2, e2.cursor.y, e2.cursor.x, 1),
                                    ..v2
                                })
                            } else {
                                (final(self)@, r) == scroll_outcome(v2, *event)
                            }
                        } else {
                            (final(self)@, r) == scroll_outcome(ViewerState { select, page_start: page, ..v }, *event)
                        }
                    },
                }
            }),
    {
        if self.content.is_some() {
            let mut content = self.content.take().unwrap();
            let cursor = if self.edit.enabled() {
                Some(self.edit.cursor_position())
            } else {
                None
            };
            self.select.process_event(event, &mut content, &mut self.page_start, cursor, self.page_area);
            if self.edit.enabled() {
                let selection = self.select.get_selection();
                let response = self.edit.process_event(event, &mut content, self.page_start, selection, self.page_area);
                if response != ResponseEvent::NotHandled {
                    let cursor = self.edit.cursor_position();
                    self.select.process_event_final(event, &content, cursor);
                    self.content = Some(content);
                    self.scroll_to(cursor.y, cursor.x, 1);
                    return response;
                }
            }
            self.content = Some(content);
        }
        let ctrl = KeyModifiers::control();
        let w = self.page_area.width as usize;
        let h = self.page_area.height as usize;
        match event {
            TuiEvent::Key(key) => {
                if key.code == KeyCode::Home && key.modifiers == ctrl {
                    self.page_start.x = 0;
                } else if key.code == KeyCode::PageUp && key.modifiers == ctrl {
                    self.page_start.sub_x(w);
                } else if key.code == KeyCode::Left {
                    self.page_start.sub_x(1);
                } else if key.code == KeyCode::Right {
                    self.page_start.add_x(1);
                } else if key.code == KeyCode::PageDown && key.modifiers == ctrl {
                    self.page_start.add_x(w);
                } else if key.code == KeyCode::End && key.modifiers == ctrl {
                    self.page_start.x = self.max_hstart();
                } else if key.code == KeyCode::Home {
                    self.page_start.y = 0;
                } else if key.code == KeyCode::PageUp {
                    self.page_start.sub_y(h);
                } else if key.code == KeyCode::Up {
                    self.page_start.sub_y(1);
                } else if key.code == KeyCode::Down {
                    self.page_start.add_y(1);
                } else if key.code == KeyCode::PageDown {
                    self.page_start.add_y(h);
                } else if key.code == KeyCode::End {
                    self.page_start.y = self.max_vstart();
                } else {
                    return ResponseEvent::NotHandled;
                }
            },
            TuiEvent::Mouse(mouse) => {
                if mouse.kind == MouseEventKind::ScrollUp && mouse.modifiers == ctrl {
                    self.page_start.sub_x(1);
                } else if mouse.kind == MouseEventKind::ScrollDown && mouse.modifiers == ctrl {
                    self.page_start.add_x(1);
                } else if mouse.kind == MouseEventKind::ScrollLeft {
                    self.page_start.sub_x(1);
                } else if mouse.kind == MouseEventKind::ScrollRight {
                    self.page_start.add_x(1);
                } else if mouse.kind == MouseEventKind::ScrollUp {
                    self.page_start.sub_y(1);
                } else if mouse.kind == MouseEventKind::ScrollDown {
                    self.page_start.add_y(1);
                } else {
                    return ResponseEvent::NotHandled;
                }
            },
            TuiEvent::Command => {
                return ResponseEvent::NotHandled;
            },
        }
        self.update_page_start();
        ResponseEvent::Handled
    }

    /// Holds the page start within the content.
    fn update_page_start(&mut self)
        requires
            old(self).wf(),
        ensures
            final(self).wf(),
            final(self)@ == (ViewerState { page_start: held_page(old(self)@, old(self)@.page_start), ..old(self)@ }),
    {
        let max_y = self.max_vstart();
        if self.page_start.y > max_y {
            self.page_start.y = max_y;
        }
        let max_x = self.max_hstart();
        if self.page_start.x > max_x {
            self.page_start.x = max_x;
        }
    }
}

} // verus!
