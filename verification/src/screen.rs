use vstd::prelude::*;
use vstd::string::StrSliceExecFns;

use crate::events::{MouseEvent, MouseEventKind, TuiEvent};
use crate::pattern::spaces;
use crate::position::{sat_sub16, Rect, ScreenPosition};
use crate::select_widget::SelectedSpan;
use crate::strings::{char_is_whitespace, is_white_space, push_char};

verus! {

/// The symbols shown in the cells of a screen area, row by row (a missing cell shows nothing).
pub struct CellGrid {
    pub rows: Vec<Vec<String>>,
    pub width: u16,
    pub height: u16,
}

/// The symbols of a grid.
pub open spec fn grid_rows(g: &CellGrid) -> Seq<Seq<Seq<char>>> {
    g.rows@.map_values(|r: Vec<String>| r@.map_values(|s: String| s@))
}

/// The symbol in cell `x:y` of `rows`, if there is one.
pub open spec fn cell_at(rows: Seq<Seq<Seq<char>>>, x: int, y: int) -> Option<Seq<char>> {
    if 0 <= y < rows.len() && 0 <= x < rows[y].len() { Some(rows[y][x]) } else { None }
}

/// The cell `x:y` lies in the area and shows a symbol that starts with a character other than
/// whitespace.
pub open spec fn word_char_at(g: &CellGrid, x: int, y: int) -> bool {
    &&& x < g.width && y < g.height
    &&& cell_at(grid_rows(g), x, y) matches Some(s) && s.len() > 0 && !is_white_space(s[0])
}

/// A symbol made of whitespace only (the empty symbol too).
pub open spec fn blank(s: Seq<char>) -> bool {
    forall|i: int| 0 <= i < s.len() ==> is_white_space(#[trigger] s[i])
}

/// The first column of the run of word cells of row `y` that ends at column `x`.
pub open spec fn word_start_at(g: &CellGrid, x: int, y: int) -> int
    decreases x,
{
    if x > 0 && word_char_at(g, x - 1, y) { word_start_at(g, x - 1, y) } else { x }
}

/// The last column of the run of word cells of row `y` that starts at column `x`.
pub open spec fn word_end_at(g: &CellGrid, x: int, y: int) -> int
    decreases g.width - x,
{
    if 0 <= x && x + 1 < g.width && word_char_at(g, x + 1, y) { word_end_at(g, x + 1, y) } else { x }
}

impl CellGrid {
    /// Returns `true` if the cell `x:y` shows a symbol that starts with a character other than
    /// whitespace.
    pub fn is_word_char_at(&self, x: u16, y: u16) -> (r: bool)
        ensures
            r == word_char_at(self, x as int, y as int),
    {
        if x >= self.width || y >= self.height {
            return false;
        }
        if (y as usize) < self.rows.len() && (x as usize) < self.rows[y as usize].len() {
            let s = self.rows[y as usize][x as usize].as_str();
            if s.unicode_len() > 0 {
                return !char_is_whitespace(s.get_char(0));
            }
        }
        false
    }

    /// Returns the symbol in cell `x:y`, if there is one.
    fn cell(&self, x: u16, y: u16) -> (r: Option<&String>)
        ensures
            match r {
                Some(s) => cell_at(grid_rows(self), x as int, y as int) == Some(s@),
                None => cell_at(grid_rows(self), x as int, y as int) is None,
            },
    {
        if (y as usize) < self.rows.len() && (x as usize) < self.rows[y as usize].len() {
            Some(&self.rows[y as usize][x as usize])
        } else {
            None
        }
    }
}

/// Returns the start and end columns of the word around cell `x:y` (just `x` when the cell is not
/// part of a word).
pub fn find_word_bounds(content: &CellGrid, x: u16, y: u16) -> (r: (u16, u16))
    ensures
        !word_char_at(content, x as int, y as int) ==> r == (x, x),
        word_char_at(content, x as int, y as int) ==> r.0 == word_start_at(content, x as int, y as int) && r.1 == word_end_at(
            content,
            x as int,
            y as int,
        ),
{
    if !content.is_word_char_at(x, y) {
        return (x, x);
    }
    let screen_width = content.width;
    let mut start = x;
    while start > 0 && content.is_word_char_at(start - 1, y)
        invariant
            start <= x,
            word_start_at(content, start as int, y as int) == word_start_at(content, x as int, y as int),
        decreases start,
    {
        start = start - 1;
    }
    let mut end = x;
    while (end as u32) + 1 < screen_width as u32 && content.is_word_char_at(end + 1, y)
        invariant
            x <= end,
            word_end_at(content, end as int, y as int) == word_end_at(content, x as int, y as int),
        decreases screen_width - end,
    {
        end = end + 1;
    }
    (start, end)
}

/// The text of a run of symbols: whitespace-only symbols become pending spaces, written only before
/// a later symbol (so trailing whitespace is dropped).
pub open spec fn line_text(syms: Seq<Seq<char>>, pending: nat) -> Seq<char>
    decreases syms.len(),
{
    if syms.len() == 0 {
        seq![]
    } else if blank(syms[0]) {
        line_text(syms.drop_first(), pending + 1)
    } else {
        spaces(pending) + syms[0] + line_text(syms.drop_first(), 0)
    }
}

/// The symbols of the cells `from..to` of row `y` that exist.
pub open spec fn row_symbols(rows: Seq<Seq<Seq<char>>>, y: int, from: int, to: int) -> Seq<Seq<char>>
    decreases to - from,
{
    if to <= from {
        seq![]
    } else {
        let rest = row_symbols(rows, y, from + 1, to);
        match cell_at(rows, from, y) {
            Some(s) => seq![s] + rest,
            None => rest,
        }
    }
}

/// The columns of row `y` that are read between `start_y:start_x` and `end_y:end_x` (both rows
/// already held within the area).
pub open spec fn row_span(area: Rect, y: int, start_y: int, start_x: u16, end_y: int, end_x: u16) -> (int, int) {
    let (from, to) = if start_y == end_y {
        (start_x, end_x)
    } else if y == start_y {
        (start_x, area.width)
    } else if y == end_y {
        (0u16, end_x)
    } else {
        (0u16, area.width)
    };
    let last = sat_sub16(area.width, 1);
    (if from < last { from as int } else { last as int }, if to < area.width { to as int } else { area.width as int })
}

/// The text read from rows `start_y..y` (a row break after each row but the last, once there is text).
pub open spec fn rows_text(rows: Seq<Seq<Seq<char>>>, area: Rect, start_y: int, start_x: u16, end_y: int, end_x: u16, y: int) -> Seq<char>
    decreases y - start_y,
{
    if y <= start_y {
        seq![]
    } else {
        let before = rows_text(rows, area, start_y, start_x, end_y, end_x, y - 1);
        let (from, to) = row_span(area, y - 1, start_y, start_x, end_y, end_x);
        let text = before + line_text(row_symbols(rows, y - 1, from, to), 0);
        if y - 1 < end_y && text.len() > 0 { text.push('\n') } else { text }
    }
}

/// `s` with a run of line breaks at its end cut down to one.
pub open spec fn single_final_break(s: Seq<char>) -> Seq<char>
    decreases s.len(),
{
    if s.len() >= 2 && s[s.len() - 1] == '\n' && s[s.len() - 2] == '\n' { single_final_break(s.drop_last()) } else { s }
}

/// The text shown in `area` between `start_y:start_x` and `end_y:end_x` (rows held within the area).
pub open spec fn text_between(rows: Seq<Seq<Seq<char>>>, area: Rect, start_y: u16, start_x: u16, end_y: u16, end_x: u16) -> Seq<char> {
    let last = sat_sub16(area.height, 1);
    let sy = if start_y < last { start_y as int } else { last as int };
    let ey = if end_y < last { end_y as int } else { last as int };
    single_final_break(rows_text(rows, area, sy, start_x, ey, end_x, if ey + 1 > sy { ey + 1 } else { sy }))
}

/// Returns `true` if every character of `s` is whitespace.
fn is_blank(s: &str) -> (r: bool)
    ensures
        r == blank(s@),
{
    let n = s.unicode_len();
    let mut i: usize = 0;
    while i < n
        invariant
            i <= n,
            n == s@.len(),
            forall|j: int| 0 <= j < i ==> is_white_space(#[trigger] s@[j]),
        decreases n - i,
    {
        if !char_is_whitespace(s.get_char(i)) {
            return false;
        }
        i = i + 1;
    }
    true
}

/// Appends the text of cells `from..to` of row `y` to `result`.
fn push_row(grid: &CellGrid, y: u16, from: u16, to: u16, result: &mut String)
    ensures
        final(result)@ == old(result)@ + line_text(row_symbols(grid_rows(grid), y as int, from as int, to as int), 0),
{
    let ghost rows = grid_rows(grid);
    let mut pending: usize = 0;
    let mut x = from;
    while x < to
        invariant
            from <= x,
            pending <= x - from,
            rows == grid_rows(grid),
            old(result)@ + line_text(row_symbols(rows, y as int, from as int, to as int), 0) == result@ + line_text(
                row_symbols(rows, y as int, x as int, to as int),
                pending as nat,
            ),
        decreases to - x,
    {
        let ghost rest = row_symbols(rows, y as int, x + 1, to as int);
        match grid.cell(x, y) {
            Some(symbol) => {
                let sym = symbol.as_str();
                assert(row_symbols(rows, y as int, x as int, to as int) == seq![sym@] + rest);
                assert((seq![sym@] + rest).drop_first() =~= rest);
                if is_blank(sym) {
                    pending = pending + 1;
                } else {
                    let mut k: usize = 0;
                    let ghost before = result@;
                    while k < pending
                        invariant
                            k <= pending,
                            result@ == before + spaces(k as nat),
                        decreases pending - k,
                    {
                        push_char(result, ' ');
                        k = k + 1;
                        assert(result@ =~= before + spaces(k as nat));
                    }
                    <String as vstd::string::StringExecFns>::append(result, sym);
                    pending = 0;
                    assert(line_text(seq![sym@] + rest, (k as nat)) == spaces(k as nat) + sym@ + line_text(rest, 0));
                    assert(result@ + line_text(rest, 0) =~= before + (spaces(k as nat) + sym@ + line_text(rest, 0)));
                }
            },
            None => {
                assert(row_symbols(rows, y as int, x as int, to as int) == rest);
            },
        }
        x = x + 1;
    }
    assert(row_symbols(rows, y as int, x as int, to as int) =~= Seq::<Seq<char>>::empty());
    assert(result@ + line_text(Seq::<Seq<char>>::empty(), pending as nat) =~= result@);
}

/// Returns the characters of `s` up to `k`.
fn prefix_chars(s: &String, k: usize) -> (r: String)
    requires
        k <= s@.len(),
    ensures
        r@ == s@.take(k as int),
{
    let r = crate::strings::char_slice(s, 0, k);
    assert(s@.subrange(0, k as int) =~= s@.take(k as int));
    r
}

/// Extracts the text shown in `area` between `start_y:start_x` and `end_y:end_x`: whitespace at the
/// end of each row is dropped, rows are separated by line breaks once there is text, and at most one
/// line break is left at the end.
pub fn buffer_contents_between(grid: &CellGrid, area: Rect, start_y: u16, start_x: u16, end_y: u16, end_x: u16) -> (r: String)
    ensures
        r@ == text_between(grid_rows(grid), area, start_y, start_x, end_y, end_x),
{
    let ghost rows = grid_rows(grid);
    let last = area.height.saturating_sub(1);
    let sy = if start_y < last { start_y } else { last };
    let ey = if end_y < last { end_y } else { last };
    let mut result = String::new();
    let mut y: u32 = sy as u32;
    let stop: u32 = if (ey as u32) + 1 > sy as u32 { (ey as u32) + 1 } else { sy as u32 };
    while y < stop
        invariant
            sy <= y <= stop,
            stop <= 65536,
            rows == grid_rows(grid),
            result@ == rows_text(rows, area, sy as int, start_x, ey as int, end_x, y as int),
        decreases stop - y,
    {
        let row = y as u16;
        let last_col = area.width.saturating_sub(1);
        let (from, to) = if sy == ey {
            (start_x, end_x)
        } else if row == sy {
            (start_x, area.width)
        } else if row == ey {
            (0u16, end_x)
        } else {
            (0u16, area.width)
        };
        let from = if from < last_col { from } else { last_col };
        let to = if to < area.width { to } else { area.width };
        push_row(grid, row, from, to, &mut result);
        if row < ey && result.as_str().unicode_len() > 0 {
            push_char(&mut result, '\n');
        }
        y = y + 1;
    }
    let chars = crate::strings::chars_of(result.as_str());
    let mut k = chars.len();
    assert(result@.take(k as int) =~= result@);
    while k >= 2 && chars[k - 1] == '\n' && chars[k - 2] == '\n'
        invariant
            k <= chars@.len(),
            chars@ == result@,
            single_final_break(result@) == single_final_break(result@.take(k as int)),
        decreases k,
    {
        assert(result@.take(k as int).drop_last() =~= result@.take(k - 1));
        k = k - 1;
    }
    prefix_chars(&result, k)
}

/// Extracts the text shown in the whole `area`.
pub fn buffer_contents(grid: &CellGrid, area: Rect) -> (r: String)
    ensures
        r@ == text_between(grid_rows(grid), area, 0, 0, sat_sub16(area.height, 1), sat_sub16(area.width, 1)),
{
    let height = area.height.saturating_sub(1);
    let width = area.width.saturating_sub(1);
    buffer_contents_between(grid, area, 0, 0, height, width)
}

/// Selection on a terminal screen: where it started, where it ends, and both in reading order.
pub struct ScreenSelection {
    start: Option<ScreenPosition>,
    end: Option<ScreenPosition>,
    sorted: Option<(ScreenPosition, ScreenPosition)>,
}

/// `true` when `p2` does not come before `p1` in reading order.
pub open spec fn screen_in_order(p1: ScreenPosition, p2: ScreenPosition) -> bool {
    p2.y > p1.y || (p2.y == p1.y && p2.x >= p1.x)
}

/// The two positions in reading order.
pub open spec fn screen_ordered(p1: ScreenPosition, p2: ScreenPosition) -> (ScreenPosition, ScreenPosition) {
    if screen_in_order(p1, p2) { (p1, p2) } else { (p2, p1) }
}

/// The columns (relative to the area, both included) selected on line `line` of a selection from
/// `start` to `end` (in reading order): whole lines between the first and the last.
pub open spec fn screen_line_bounds(start: ScreenPosition, end: ScreenPosition, width: u16, line: u16) -> (u16, u16) {
    if start.y == end.y {
        (start.x, end.x)
    } else if line == start.y {
        (start.x, sat_sub16(width, 1))
    } else if line == end.y {
        (0, end.x)
    } else {
        (0, sat_sub16(width, 1))
    }
}

/// The screen spans coloured for the first `n` lines of a selection from `start` to `end`, for
/// lines that have a selected column.
pub open spec fn screen_spans_upto(start: ScreenPosition, end: ScreenPosition, area: Rect, n: nat) -> Seq<SelectedSpan>
    decreases n,
{
    if n == 0 {
        seq![]
    } else {
        let rest = screen_spans_upto(start, end, area, (n - 1) as nat);
        let line = (start.y + n - 1) as u16;
        let (from, to) = screen_line_bounds(start, end, area.width, line);
        if from <= to {
            rest.push(SelectedSpan { y: (area.y + line) as u16, from: (area.x + from) as u16, to: (area.x + to) as u16 })
        } else {
            rest
        }
    }
}

/// The selection can be coloured on `area` without leaving the `u16` range.
pub open spec fn screen_spans_fit(start: ScreenPosition, end: ScreenPosition, area: Rect) -> bool {
    &&& area.y + end.y <= u16::MAX
    &&& forall|line: u16| start.y <= line <= end.y ==> {
        let (from, to) = #[trigger] screen_line_bounds(start, end, area.width, line);
        from <= to ==> area.x + to <= u16::MAX
    }
}

/// The ends of a screen selection after a mouse action in `area` over `content`.
pub open spec fn screen_after_mouse(
    start: Option<ScreenPosition>,
    end: Option<ScreenPosition>,
    mouse: MouseEvent,
    content: &CellGrid,
    area: Rect,
) -> (Option<ScreenPosition>, Option<ScreenPosition>) {
    if !area.spec_contains(ScreenPosition { x: mouse.column, y: mouse.row }) {
        (start, end)
    } else {
        let x = sat_sub16(mouse.column, area.x);
        let y = sat_sub16(mouse.row, area.y);
        match mouse.kind {
            MouseEventKind::LeftClick => (Some(ScreenPosition { x, y }), None),
            MouseEventKind::LeftDrag => (start, Some(ScreenPosition { x, y })),
            MouseEventKind::LeftDoubleClick => if word_char_at(content, x as int, y as int) {
                (
                    Some(ScreenPosition { x: word_start_at(content, x as int, y as int) as u16, y }),
                    Some(ScreenPosition { x: word_end_at(content, x as int, y as int) as u16, y }),
                )
            } else {
                (Some(ScreenPosition { x, y }), Some(ScreenPosition { x, y }))
            },
            MouseEventKind::LeftTripleClick => (Some(ScreenPosition { x: 0, y }), Some(ScreenPosition { x: sat_sub16(area.width, 1), y })),
            _ => (start, end),
        }
    }
}

/// The ends of a screen selection after an event: a key press clears it.
pub open spec fn screen_after_event(
    start: Option<ScreenPosition>,
    end: Option<ScreenPosition>,
    event: TuiEvent,
    content: &CellGrid,
    area: Rect,
) -> (Option<ScreenPosition>, Option<ScreenPosition>) {
    match event {
        TuiEvent::Key(_) => (None, None),
        TuiEvent::Mouse(mouse) => screen_after_mouse(start, end, mouse, content, area),
        TuiEvent::Command => (start, end),
    }
}

impl ScreenSelection {
    /// The start of the selection.
    pub closed spec fn start_position(&self) -> Option<ScreenPosition> {
        self.start
    }

    /// The end of the selection.
    pub closed spec fn end_position(&self) -> Option<ScreenPosition> {
        self.end
    }

    /// The sorted ends of the selection.
    pub closed spec fn sorted_ends(&self) -> Option<(ScreenPosition, ScreenPosition)> {
        self.sorted
    }

    /// Creates an empty selection.
    pub fn new() -> (r: Self)
        ensures
            r.start_position() is None,
            r.end_position() is None,
            r.sorted_ends() is None,
    {
        ScreenSelection { start: None, end: None, sorted: None }
    }

    /// Resets selection.
    pub fn reset(&mut self)
        ensures
            final(self).start_position() is None,
            final(self).end_position() is None,
            final(self).sorted_ends() is None,
    {
        self.start = None;
        self.end = None;
        self.sorted = None;
    }

    /// Returns sorted start and end for the current selection.
    pub fn sorted(&self) -> (r: Option<(ScreenPosition, ScreenPosition)>)
        ensures
            r == self.sorted_ends(),
    {
        self.sorted
    }

    /// Returns the screen spans that the selection colours on `area`, line by line.
    pub fn spans(&self, area: Rect) -> (r: Vec<SelectedSpan>)
        requires
            self.sorted_ends() is Some ==> screen_spans_fit(self.sorted_ends().unwrap().0, self.sorted_ends().unwrap().1, area),
        ensures
            r@ == match self.sorted_ends() {
                Some((s, e)) => if s.y <= e.y { screen_spans_upto(s, e, area, (e.y - s.y + 1) as nat) } else { Seq::empty() },
                None => Seq::empty(),
            },
    {
        let mut spans: Vec<SelectedSpan> = Vec::new();
        let (start, end) = match self.sorted {
            Some(ends) => ends,
            None => return spans,
        };
        if start.y > end.y {
            return spans;
        }
        let mut line = start.y;
        loop
            invariant_except_break
                spans@ == screen_spans_upto(start, end, area, (line - start.y) as nat),
            invariant
                start.y <= line <= end.y,
                screen_spans_fit(start, end, area),
            ensures
                spans@ == screen_spans_upto(start, end, area, (end.y - start.y + 1) as nat),
            decreases end.y - line,
        {
            let (from, to) = if start.y == end.y {
                (start.x, end.x)
            } else if line == start.y {
                (start.x, area.width.saturating_sub(1))
            } else if line == end.y {
                (0, end.x)
            } else {
                (0, area.width.saturating_sub(1))
            };
            assert((from, to) == screen_line_bounds(start, end, area.width, line));
            if from <= to {
                spans.push(SelectedSpan { y: area.y + line, from: area.x + from, to: area.x + to });
            }
            assert(start.y + (line - start.y + 1) - 1 == line);
            assert(spans@ == screen_spans_upto(start, end, area, (line - start.y + 1) as nat));
            if line == end.y {
                break;
            }
            line = line + 1;
        }
        spans
    }

    /// Process UI key/mouse event over the cells of `area`.
    pub fn process_event_with_content(&mut self, event: &TuiEvent, content: &CellGrid, area: Rect)
        ensures
            ({
                let (start, end) = screen_after_event(old(self).start_position(), old(self).end_position(), *event, content, area);
                &&& final(self).start_position() == start
                &&& final(self).end_position() == end
                &&& final(self).sorted_ends() == if start is Some && end is Some {
                    Some(screen_ordered(start->0, end->0))
                } else {
                    None
                }
            }),
    {
        match event {
            TuiEvent::Key(_) => {
                self.start = None;
                self.end = None;
            },
            TuiEvent::Mouse(mouse) => self.process_mouse_event(*mouse, content, area),
            TuiEvent::Command => {},
        }
        match (self.start, self.end) {
            (Some(start), Some(end)) => {
                let in_order = end.y > start.y || (end.y == start.y && end.x >= start.x);
                self.sorted = Some(if in_order { (start, end) } else { (end, start) });
            },
            _ => {
                self.sorted = None;
            },
        }
    }

    fn process_mouse_event(&mut self, mouse: MouseEvent, content: &CellGrid, area: Rect)
        ensures
            (final(self).start, final(self).end) == screen_after_mouse(old(self).start, old(self).end, mouse, content, area),
    {
        if !area.contains(ScreenPosition::new(mouse.column, mouse.row)) {
            return;
        }
        let x = mouse.column.saturating_sub(area.x);
        let y = mouse.row.saturating_sub(area.y);
        match mouse.kind {
            MouseEventKind::LeftClick => {
                self.start = Some(ScreenPosition::new(x, y));
                self.end = None;
            },
            MouseEventKind::LeftDrag => {
                self.end = Some(ScreenPosition::new(x, y));
            },
            MouseEventKind::LeftDoubleClick => {
                let bounds = find_word_bounds(content, x, y);
                self.start = Some(ScreenPosition::new(bounds.0, y));
                self.end = Some(ScreenPosition::new(bounds.1, y));
            },
            MouseEventKind::LeftTripleClick => {
                self.start = Some(ScreenPosition::new(0, y));
                self.end = Some(ScreenPosition::new(area.width.saturating_sub(1), y));
            },
            _ => {},
        }
    }
}

} // verus!
