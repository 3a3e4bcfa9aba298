use vstd::prelude::*;

use crate::position::{sat_add, sat_add16, sat_sub, sat_sub16, ContentPosition, MatchPosition, Rect, ScreenPosition, SearchData};

verus! {

/// `n` as a `u16`, or `0` when it does not fit.
pub open spec fn fit_u16(n: int) -> u16 {
    if 0 <= n <= u16::MAX { n as u16 } else { 0 }
}

/// The match moved by `offset`, when there is one.
pub open spec fn shifted(m: MatchPosition, offset: Option<ScreenPosition>) -> MatchPosition {
    match offset {
        Some(o) => MatchPosition { x: sat_add(m.x, o.x as usize), y: sat_add(m.y, o.y as usize), length: m.length },
        None => m,
    }
}

/// The screen cell of the match character that ends `len` characters after the match start.
pub open spec fn cell_for(m: MatchPosition, page: ContentPosition, area: Rect, len: usize) -> ScreenPosition {
    let x = fit_u16(sat_sub(sat_add(m.x, len), page.x) as int);
    let y = fit_u16(sat_sub(m.y, page.y) as int);
    ScreenPosition { x: sat_sub16(sat_add16(x, area.x), 1), y: sat_add16(y, area.y) }
}

/// The cells of the match that lie in `area`, from the one `len` characters in down to the first.
pub open spec fn cells_down_from(m: MatchPosition, page: ContentPosition, area: Rect, len: usize) -> Seq<ScreenPosition>
    decreases len,
{
    if len == 0 {
        seq![]
    } else {
        let p = cell_for(m, page, area, len);
        let rest = cells_down_from(m, page, area, (len - 1) as usize);
        if area.spec_contains(p) { seq![p] + rest } else { rest }
    }
}

/// The cells highlighted for one match: none when it lies above or left of the page.
pub open spec fn match_cells(m: MatchPosition, page: ContentPosition, area: Rect) -> Seq<ScreenPosition> {
    if m.y >= page.y && sat_add(m.x, m.length) > page.x {
        cells_down_from(m, page, area, m.length)
    } else {
        seq![]
    }
}

/// The cells highlighted for the first `n` matches, match after match.
pub open spec fn all_match_cells(
    ms: Seq<MatchPosition>,
    n: int,
    page: ContentPosition,
    area: Rect,
    offset: Option<ScreenPosition>,
) -> Seq<ScreenPosition>
    decreases n,
{
    if n <= 0 {
        seq![]
    } else {
        all_match_cells(ms, n - 1, page, area, offset) + match_cells(shifted(ms[n - 1], offset), page, area)
    }
}

/// The cells highlighted for a search: those of the current match (numbered from one, where `0`
/// stands for the first) when there is one, else those of every match; none without matches.
pub open spec fn search_cells(
    matches: Option<Seq<MatchPosition>>,
    current: Option<usize>,
    page: ContentPosition,
    area: Rect,
    offset: Option<ScreenPosition>,
) -> Seq<ScreenPosition> {
    match matches {
        None => seq![],
        Some(ms) => match current {
            Some(c) => match_cells(shifted(ms[sat_sub(c, 1) as int], offset), page, area),
            None => all_match_cells(ms, ms.len() as int, page, area, offset),
        },
    }
}

/// Widget that highlights search matches on the provided area.
pub struct SearchResultsWidget<'a> {
    /// Content's page position.
    pub page_start: ContentPosition,
    /// Search data.
    pub data: &'a SearchData,
    /// Offset of the matches in the content.
    pub offset: Option<ScreenPosition>,
}

impl<'a> SearchResultsWidget<'a> {
    /// Creates new [`SearchResultsWidget`] instance.
    pub fn new(page_start: ContentPosition, data: &'a SearchData) -> (r: Self)
        ensures
            r.page_start == page_start,
            r.data == data,
            r.offset is None,
    {
        SearchResultsWidget { page_start, data, offset: None }
    }

    /// Sets the offset of the matches in the content.
    pub fn with_offset(self, offset: Option<ScreenPosition>) -> (r: Self)
        ensures
            r.page_start == self.page_start,
            r.data == self.data,
            r.offset == offset,
    {
        SearchResultsWidget { offset, ..self }
    }

    /// The cells to highlight on `area`.
    pub open spec fn highlighted(&self, area: Rect) -> Seq<ScreenPosition> {
        let matches = match self.data.matches {
            Some(ms) => Some(ms@),
            None => None,
        };
        search_cells(matches, self.data.current, self.page_start, area, self.offset)
    }

    /// Returns the cells of `area` that the widget highlights, in the order it colours them.
    pub fn highlighted_cells(&self, area: Rect) -> (r: Vec<ScreenPosition>)
        requires
            self.data.matches is Some && self.data.current is Some ==> sat_sub(self.data.current->0, 1)
                < self.data.matches->0@.len(),
        ensures
            r@ == self.highlighted(area),
    {
        let mut cells: Vec<ScreenPosition> = Vec::new();
        match &self.data.matches {
            None => {},
            Some(matches) => match self.data.current {
                Some(current) => {
                    self.push_match_cells(&mut cells, &matches[current.saturating_sub(1)], area);
                    assert(cells@ =~= self.highlighted(area));
                },
                None => {
                    let mut i: usize = 0;
                    while i < matches.len()
                        invariant
                            i <= matches@.len(),
                            self.data.matches == Some(*matches),
                            self.data.current is None,
                            cells@ == all_match_cells(matches@, i as int, self.page_start, area, self.offset),
                        decreases matches@.len() - i,
                    {
                        self.push_match_cells(&mut cells, &matches[i], area);
                        i = i + 1;
                    }
                },
            },
        }
        cells
    }

    /// Appends the cells highlighted for the match `position`.
    fn push_match_cells(&self, cells: &mut Vec<ScreenPosition>, position: &MatchPosition, area: Rect)
        ensures
            final(cells)@ == old(cells)@ + match_cells(shifted(*position, self.offset), self.page_start, area),
    {
        let m = match self.offset {
            Some(offset) => position.adjust_by(offset),
            None => *position,
        };
        if m.y >= self.page_start.y && m.x.saturating_add(m.length) > self.page_start.x {
            self.push_cells(cells, &m, area);
        } else {
            assert(old(cells)@ + match_cells(m, self.page_start, area) =~= old(cells)@);
        }
    }

    /// Appends the cells of match `m` that lie in `area`, from its last character to its first.
    fn push_cells(&self, cells: &mut Vec<ScreenPosition>, m: &MatchPosition, area: Rect)
        ensures
            final(cells)@ == old(cells)@ + cells_down_from(*m, self.page_start, area, m.length),
    {
        let dy = m.y.saturating_sub(self.page_start.y);
        let y: u16 = if dy <= 65535 { dy as u16 } else { 0 };
        let mut length = m.length;
        while length > 0
            invariant
                length <= m.length,
                y == fit_u16(sat_sub(m.y, self.page_start.y) as int),
                cells@ + cells_down_from(*m, self.page_start, area, length) == old(cells)@ + cells_down_from(
                    *m,
                    self.page_start,
                    area,
                    m.length,
                ),
            decreases length,
        {
            let dx = m.x.saturating_add(length).saturating_sub(self.page_start.x);
            let x: u16 = if dx <= 65535 { dx as u16 } else { 0 };
            let position = ScreenPosition { x: x.saturating_add(area.x).saturating_sub(1), y: y.saturating_add(area.y) };
            assert(position == cell_for(*m, self.page_start, area, length));
            let ghost before = cells@;
            if area.contains(position) {
                cells.push(position);
                assert(before + cells_down_from(*m, self.page_start, area, length) =~= cells@ + cells_down_from(
                    *m,
                    self.page_start,
                    area,
                    (length - 1) as usize,
                ));
            }
            length = length - 1;
        }
        assert(cells@ + cells_down_from(*m, self.page_start, area, 0) =~= cells@);
    }
}

} // verus!
