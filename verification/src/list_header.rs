use vstd::prelude::*;

use crate::strings::chars_of;

verus! {

/// What the header of a list pane draws at one cell.
#[derive(Debug, Clone, Copy, PartialEq, Eq, Structural)]
pub struct HeaderCell {
    /// Column of the cell.
    pub x: u16,
    /// Character drawn in the cell.
    pub ch: char,
    /// The character is the sort symbol of its column name, shown underlined.
    pub underlined: bool,
    /// The character is a sort direction arrow, drawn dimmed.
    pub is_arrow: bool,
}

/// The cells that the header of a list pane draws on its row.
#[derive(Debug)]
pub struct HeaderRow {
    /// Column and character of the left border.
    pub left_border: (u16, char),
    /// Column and character of the right border.
    pub right_border: (u16, char),
    /// The visible header characters, left to right.
    pub cells: Vec<HeaderCell>,
}

/// Header of the items list pane; it underlines the sort symbol inside each column name.
pub struct HeaderWidget {
    pub header: String,
    pub offset: usize,
    /// The list shows all its columns (otherwise its first column is hidden).
    pub is_full_view: bool,
    /// The sort symbol of each column (a space for none).
    pub sort_symbols: Vec<char>,
    pub show_border: bool,
    pub is_focused: bool,
}

/// Scanning state after some header characters: the column number, whether the scan is inside a
/// column name, and whether that name has had its sort symbol underlined.
pub type ScanState = (int, bool, bool);

/// The state once character `c` is seen: a non-space starts a column name, a space ends one and
/// moves to the next column.
pub open spec fn entered(state: ScanState, c: char) -> ScanState {
    let (col, inside, done) = state;
    if c != ' ' && !inside {
        (col, true, false)
    } else if c == ' ' && inside {
        (col + 1, false, done)
    } else {
        state
    }
}

/// Character `c` is underlined in the state `state` (taken after `entered`): the header has focus,
/// `c` is the sort symbol of the current column and the column name has none underlined yet.
pub open spec fn underlines(state: ScanState, c: char, focused: bool, symbols: Seq<char>) -> bool {
    let (col, inside, done) = state;
    &&& focused
    &&& inside
    &&& !done
    &&& 0 <= col < symbols.len()
    &&& symbols[col] != ' '
    &&& c == symbols[col]
}

/// The state after character `c`.
pub open spec fn scan_step(state: ScanState, c: char, focused: bool, symbols: Seq<char>) -> ScanState {
    let s = entered(state, c);
    if underlines(s, c, focused, symbols) { (s.0, s.1, true) } else { s }
}

/// The state after the first `i` characters of `h`, starting at column `start`.
pub open spec fn scan_state(h: Seq<char>, i: int, start: int, focused: bool, symbols: Seq<char>) -> ScanState
    decreases i,
{
    if i <= 0 {
        (start, false, false)
    } else {
        scan_step(scan_state(h, i - 1, start, focused, symbols), h[i - 1], focused, symbols)
    }
}

/// Character `i` of `h` is underlined.
pub open spec fn is_underlined(h: Seq<char>, i: int, start: int, focused: bool, symbols: Seq<char>) -> bool {
    underlines(entered(scan_state(h, i, start, focused, symbols), h[i]), h[i], focused, symbols)
}

/// The column at which the header starts to be drawn (one right of the left border).
pub open spec fn first_x(left: u16) -> int {
    left + 1
}

/// The column of the right border: the last column of the area, kept within the buffer.
pub open spec fn last_x(left: u16, width: u16, buf_width: u16) -> int {
    let area_last = if left + width >= 1 { left + width - 1 } else { 0 };
    let buf_last = if buf_width >= 1 { buf_width - 1 } else { 0 };
    if area_last < buf_last { area_last } else { buf_last }
}

/// Index after the last header character drawn: drawing stops at the right border.
pub open spec fn drawn_end(len: int, offset: int, x0: int, max_x: int) -> int {
    if x0 >= max_x {
        0
    } else if offset + (max_x - x0) < len {
        offset + (max_x - x0)
    } else {
        len
    }
}

impl HeaderWidget {
    /// The column a scan of the header starts at: the hidden first column is skipped.
    pub open spec fn start_column(&self) -> int {
        if self.is_full_view { 0 } else { 1 }
    }

    /// The cell drawn for character `i` of the header, for an area starting at column `left`.
    pub open spec fn cell_at(&self, i: int, left: u16) -> HeaderCell {
        let h = self.header@;
        HeaderCell {
            x: (first_x(left) + i - self.offset) as u16,
            ch: h[i],
            underlined: is_underlined(h, i, self.start_column(), self.is_focused, self.sort_symbols@),
            is_arrow: h[i] == '↑' || h[i] == '↓',
        }
    }

    /// The left border character.
    pub open spec fn left_border_char(&self) -> char {
        if self.show_border { '\u{e0c7}' } else { ' ' }
    }

    /// The right border character.
    pub open spec fn right_border_char(&self) -> char {
        if self.show_border { '\u{e0c6}' } else { ' ' }
    }

    /// Computes what the header draws on the first row of an area starting at column `left` with
    /// `width` columns, in a buffer `buf_width` columns wide: the two borders, then each visible
    /// header character (those from `offset` on) up to the right border.
    pub fn render_cells(&self, left: u16, width: u16, buf_width: u16) -> (r: HeaderRow)
        requires
            left < u16::MAX,
            left + width <= u16::MAX,
        ensures
            r.left_border == (left, self.left_border_char()),
            r.right_border == (last_x(left, width, buf_width) as u16, self.right_border_char()),
            ({
                let len = self.header@.len() as int;
                let end = drawn_end(len, self.offset as int, first_x(left), last_x(left, width, buf_width));
                let count = if end > self.offset { end - self.offset } else { 0 };
                &&& r.cells@.len() == count
                &&& forall|k: int| 0 <= k < count ==> #[trigger] r.cells@[k] == self.cell_at(self.offset + k, left)
            }),
    {
        let x0 = left + 1;
        let area_last = (left + width).saturating_sub(1);
        let buf_last = buf_width.saturating_sub(1);
        let max_x = if area_last < buf_last { area_last } else { buf_last };
        let (left_char, right_char) = if self.show_border { ('\u{e0c7}', '\u{e0c6}') } else { (' ', ' ') };

        let h = chars_of(self.header.as_str());
        let n = h.len();
        let start: usize = if self.is_full_view { 0 } else { 1 };
        let ghost symbols = self.sort_symbols@;
        let ghost focused = self.is_focused;
        let ghost end = drawn_end(n as int, self.offset as int, x0 as int, max_x as int);
        let mut column_no: usize = start;
        let mut in_column = false;
        let mut highlighted = false;
        let mut cells: Vec<HeaderCell> = Vec::new();
        let mut i: usize = 0;
        while i < n
            invariant
                i <= n,
                n == h@.len(),
                h@ == self.header@,
                symbols == self.sort_symbols@,
                focused == self.is_focused,
                start as int == self.start_column(),
                x0 as int == first_x(left),
                max_x as int == last_x(left, width, buf_width),
                end == drawn_end(n as int, self.offset as int, x0 as int, max_x as int),
                i <= end || i == 0,
                x0 >= max_x ==> i == 0,
                (column_no as int, in_column, highlighted) == scan_state(h@, i as int, start as int, focused, symbols),
                column_no + (if in_column { 1int } else { 0int }) <= start + i,
                start <= 1,
                cells@.len() == (if i > self.offset { i - self.offset } else { 0 }),
                forall|k: int| 0 <= k < cells@.len() ==> #[trigger] cells@[k] == self.cell_at(self.offset + k, left),
            ensures
                cells@.len() == (if end > self.offset { end - self.offset } else { 0 }),
                forall|k: int| 0 <= k < cells@.len() ==> #[trigger] cells@[k] == self.cell_at(self.offset + k, left),
            decreases n - i,
        {
            let rel: usize = if i >= self.offset { i - self.offset } else { 0 };
            if x0 >= max_x || rel >= (max_x - x0) as usize {
                break;
            }
            let x: u16 = x0 + rel as u16;
            let c = h[i];
            let ghost before = (column_no as int, in_column, highlighted);
            if c != ' ' && !in_column {
                in_column = true;
                highlighted = false;
            } else if c == ' ' && in_column {
                in_column = false;
                column_no = column_no + 1;
            }
            assert((column_no as int, in_column, highlighted) == entered(before, c));
            let mut underlined = false;
            if self.is_focused {
                let can_be_highlighted = column_no < self.sort_symbols.len() && self.sort_symbols[column_no] != ' '
                    && c == self.sort_symbols[column_no];
                if in_column && can_be_highlighted && !highlighted {
                    highlighted = true;
                    underlined = true;
                }
            }
            proof {
                assert(underlined == is_underlined(h@, i as int, start as int, focused, symbols));
                assert((column_no as int, in_column, highlighted) == scan_state(h@, i + 1, start as int, focused, symbols));
            }
            if i >= self.offset {
                let cell = HeaderCell { x, ch: c, underlined, is_arrow: c == '↑' || c == '↓' };
                assert(cell == self.cell_at(i as int, left));
                cells.push(cell);
                assert(cells@.len() == i + 1 - self.offset);
            } else {
                assert(cells@.len() == 0);
            }
            i = i + 1;
        }
        HeaderRow { left_border: (left, left_char), right_border: (max_x, right_char), cells }
    }
}

} // verus!
