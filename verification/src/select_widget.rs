use vstd::prelude::*;

use crate::content::Content;
use crate::position::{sat_add16, ContentPosition, Rect};
use crate::selection::{ordered, SelectContext, SelectState};

verus! {

/// Columns `from` to `to` (both included) of screen row `y`, coloured as selected.
#[derive(Debug, Clone, Copy, PartialEq, Eq, Structural)]
pub struct SelectedSpan {
    pub y: u16,
    pub from: u16,
    pub to: u16,
}

/// `n` as a `u16`, or `default` when it does not fit.
pub open spec fn fit_or(n: int, default: u16) -> u16 {
    if 0 <= n <= u16::MAX { n as u16 } else { default }
}

/// The screen column of content column `x` (`None` left of the page); a column too far right
/// stands for the area's width.
pub open spec fn relative_x(page: ContentPosition, x: usize, area: Rect) -> Option<u16> {
    if x >= page.x { Some(sat_add16(fit_or(x - page.x, area.width), area.x)) } else { None }
}

/// The screen row of content line `y` (`None` above the page); a line too far down stands for the
/// area's height.
pub open spec fn relative_y(page: ContentPosition, y: usize, area: Rect) -> Option<u16> {
    if y >= page.y { Some(sat_add16(fit_or(y - page.y, area.height), area.y)) } else { None }
}

/// How far the selection colouring of line `line` may reach: one cell past the line's last
/// character, counted from the page's left edge and the area's left column; `None` for a line
/// that does not exist or ends left of that.
pub open spec fn relative_max_len(count: nat, width: nat, page: ContentPosition, area: Rect, line: usize) -> Option<u16> {
    let line_len = width + 1;
    let base = page.x + area.x;
    if line >= count || line_len < base { None } else { Some(fit_or(line_len - base + 1, u16::MAX)) }
}

/// Selection colouring stays within machine limits on `content`.
pub open spec fn select_fits<T: Content>(content: &T, page: ContentPosition, area: Rect) -> bool {
    &&& page.x + area.x <= usize::MAX
    &&& forall|l: int| #[trigger] content.line_width(l) + 2 <= usize::MAX
}

/// The coloured span of line `line` for a selection from `start` to `end` (in document order).
pub open spec fn line_span<T: Content>(
    content: &T,
    page: ContentPosition,
    start: ContentPosition,
    end: ContentPosition,
    area: Rect,
    line: usize,
) -> Option<SelectedSpan> {
    match relative_y(page, line, area) {
        Some(y) => if y >= area.y && y < area.spec_bottom() {
            match relative_max_len(content.line_count(), content.line_width(line as int), page, area, line) {
                Some(max_x) => {
                    let start_x = if start.y == line {
                        match relative_x(page, start.x, area) {
                            Some(x) => x,
                            None => 0u16,
                        }
                    } else {
                        area.x
                    };
                    let end_x = if end.y == line {
                        match relative_x(page, end.x, area) {
                            Some(x) => Some(if x < max_x { x } else { max_x }),
                            None => None,
                        }
                    } else {
                        Some(max_x)
                    };
                    match end_x {
                        Some(e) => if start_x < area.spec_right() && e >= area.x {
                            Some(SelectedSpan {
                                y,
                                from: if start_x > area.x { start_x } else { area.x },
                                to: if e < area.spec_right() { e } else { area.spec_right() },
                            })
                        } else {
                            None
                        },
                        None => None,
                    }
                },
                None => None,
            }
        } else {
            None
        },
        None => None,
    }
}

/// The coloured spans of the first `n` lines of the selection, top to bottom.
pub open spec fn spans_upto<T: Content>(
    content: &T,
    page: ContentPosition,
    start: ContentPosition,
    end: ContentPosition,
    area: Rect,
    n: nat,
) -> Seq<SelectedSpan>
    decreases n,
{
    if n == 0 {
        seq![]
    } else {
        let rest = spans_upto(content, page, start, end, area, (n - 1) as nat);
        match line_span(content, page, start, end, area, (start.y + n - 1) as usize) {
            Some(s) => rest.push(s),
            None => rest,
        }
    }
}

/// The spans coloured on `area` for the selection `s`: for each line of the selection (in document
/// order) on the page, from its first selected column (the area's left column on later lines) to
/// its last (one past the line's end on earlier lines), kept within the area.
pub open spec fn selection_spans<T: Content>(content: &T, page: ContentPosition, s: SelectState, area: Rect) -> Seq<SelectedSpan> {
    if s.start is Some && s.end is Some {
        let (start, end) = ordered(s.start->0, s.end->0);
        spans_upto(content, page, start, end, area, (end.y - start.y + 1) as nat)
    } else {
        seq![]
    }
}

/// Widget that highlights the selected part of the content.
pub struct ContentSelectWidget<'a, T: Content> {
    pub context: &'a SelectContext,
    pub content: &'a T,
    pub page_start: &'a ContentPosition,
}

impl<'a, T: Content> ContentSelectWidget<'a, T> {
    /// Creates new [`ContentSelectWidget`] instance.
    pub fn new(context: &'a SelectContext, content: &'a T, page_start: &'a ContentPosition) -> (r: Self)
        ensures
            r.context == context,
            r.content == content,
            r.page_start == page_start,
    {
        ContentSelectWidget { context, content, page_start }
    }

    /// The spans coloured on `area`.
    pub open spec fn highlighted(&self, area: Rect) -> Seq<SelectedSpan> {
        selection_spans(self.content, *self.page_start, self.context@, area)
    }

    /// Returns the screen column of content column `x`.
    pub fn get_relative_x(&self, x: usize, area: Rect) -> (r: Option<u16>)
        ensures
            r == relative_x(*self.page_start, x, area),
    {
        if x < self.page_start.x {
            return None;
        }
        let d = x - self.page_start.x;
        let v: u16 = if d <= 65535 { d as u16 } else { area.width };
        Some(v.saturating_add(area.x))
    }

    /// Returns the screen row of content line `y`.
    pub fn get_relative_y(&self, y: usize, area: Rect) -> (r: Option<u16>)
        ensures
            r == relative_y(*self.page_start, y, area),
    {
        if y < self.page_start.y {
            return None;
        }
        let d = y - self.page_start.y;
        let v: u16 = if d <= 65535 { d as u16 } else { area.height };
        Some(v.saturating_add(area.y))
    }

    /// Returns how far the colouring of line `current_line` may reach.
    pub fn get_relative_max_len(&self, area: Rect, current_line: usize) -> (r: Option<u16>)
        requires
            select_fits(self.content, *self.page_start, area),
        ensures
            r == relative_max_len(
                self.content.line_count(),
                self.content.line_width(current_line as int),
                *self.page_start,
                area,
                current_line,
            ),
    {
        let width = self.content.line_size(current_line);
        assert(self.content.line_width(current_line as int) + 2 <= usize::MAX);
        let line_len = width + 1;
        let base = self.page_start.x + area.x as usize;
        if current_line >= self.content.len() || line_len < base {
            return None;
        }
        let max_x = line_len - base + 1;
        Some(if max_x <= 65535 { max_x as u16 } else { u16::MAX })
    }

    /// Returns the spans that the widget colours on `area`.
    pub fn highlighted_spans(&self, area: Rect) -> (r: Vec<SelectedSpan>)
        requires
            select_fits(self.content, *self.page_start, area),
        ensures
            r@ == self.highlighted(area),
    {
        let mut spans: Vec<SelectedSpan> = Vec::new();
        let (start, end) = match self.context.get_selection() {
            Some(s) => s.sorted(),
            None => return spans,
        };
        let mut line = start.y;
        loop
            invariant_except_break
                spans@ == spans_upto(self.content, *self.page_start, start, end, area, (line - start.y) as nat),
            invariant
                start.y <= line <= end.y,
                (start, end) == ordered(self.context@.start->0, self.context@.end->0),
                self.context@.start is Some && self.context@.end is Some,
                select_fits(self.content, *self.page_start, area),
            ensures
                spans@ == spans_upto(self.content, *self.page_start, start, end, area, (end.y - start.y + 1) as nat),
            decreases end.y - line,
        {
            let span = self.line_span(start, end, area, line);
            match span {
                Some(s) => spans.push(s),
                None => {},
            }
            assert(start.y + (line - start.y + 1) - 1 == line);
            assert(spans@ == spans_upto(self.content, *self.page_start, start, end, area, (line - start.y + 1) as nat));
            if line == end.y {
                break;
            }
            line = line + 1;
        }
        spans
    }

    /// Returns the coloured span of line `line`, if any.
    fn line_span(&self, start: ContentPosition, end: ContentPosition, area: Rect, line: usize) -> (r: Option<SelectedSpan>)
        requires
            select_fits(self.content, *self.page_start, area),
        ensures
            r == line_span(self.content, *self.page_start, start, end, area, line),
    {
        let y = match self.get_relative_y(line, area) {
            Some(y) => y,
            None => return None,
        };
        if y < area.y || y >= area.bottom() {
            return None;
        }
        let max_x = match self.get_relative_max_len(area, line) {
            Some(m) => m,
            None => return None,
        };
        let start_x = if start.y == line {
            match self.get_relative_x(start.x, area) {
                Some(x) => x,
                None => 0,
            }
        } else {
            area.x
        };
        let end_x = if end.y == line {
            match self.get_relative_x(end.x, area) {
                Some(x) => Some(if x < max_x { x } else { max_x }),
                None => None,
            }
        } else {
            Some(max_x)
        };
        let right = area.right();
        match end_x {
            Some(e) => if start_x < right && e >= area.x {
                Some(SelectedSpan {
                    y,
                    from: if start_x > area.x { start_x } else { area.x },
                    to: if e < right { e } else { right },
                })
            } else {
                None
            },
            None => None,
        }
    }
}

} // verus!
