use vstd::prelude::*;

verus! {

/// Represents a position in the content using `x` (column) and `y` (line) coordinates.
#[derive(Debug, Clone, Copy, PartialEq, Eq, Structural)]
pub struct ContentPosition {
    pub x: usize,
    pub y: usize,
}

/// Saturating addition on `usize`, as a mathematical value.
pub open spec fn sat_add(a: usize, b: usize) -> usize {
    if a + b > usize::MAX { usize::MAX } else { (a + b) as usize }
}

/// Saturating subtraction on `usize`, as a mathematical value.
pub open spec fn sat_sub(a: usize, b: usize) -> usize {
    if a >= b { (a - b) as usize } else { 0 }
}

impl ContentPosition {
    /// Creates new [`ContentPosition`] instance.
    pub fn new(x: usize, y: usize) -> (r: Self)
        ensures
            r.x == x,
            r.y == y,
    {
        Self { x, y }
    }

    /// Adds `value` to the content `x` position.
    pub fn add_x(&mut self, value: usize)
        ensures
            final(self).x == sat_add(old(self).x, value),
            final(self).y == old(self).y,
    {
        self.x = self.x.saturating_add(value);
    }

    /// Subtracts `value` from the content `x` position.
    pub fn sub_x(&mut self, value: usize)
        ensures
            final(self).x == sat_sub(old(self).x, value),
            final(self).y == old(self).y,
    {
        self.x = self.x.saturating_sub(value);
    }

    /// Adds `value` to the content `y` position.
    pub fn add_y(&mut self, value: usize)
        ensures
            final(self).y == sat_add(old(self).y, value),
            final(self).x == old(self).x,
    {
        self.y = self.y.saturating_add(value);
    }

    /// Subtracts `value` from the content `y` position.
    pub fn sub_y(&mut self, value: usize)
        ensures
            final(self).y == sat_sub(old(self).y, value),
            final(self).x == old(self).x,
    {
        self.y = self.y.saturating_sub(value);
    }
}

/// A cell position on the terminal screen (column `x`, row `y`).
#[derive(Debug, Default, Clone, Copy, PartialEq, Eq, Structural)]
pub struct ScreenPosition {
    pub x: u16,
    pub y: u16,
}

impl ScreenPosition {
    /// Creates new [`ScreenPosition`] instance.
    pub fn new(x: u16, y: u16) -> (r: Self)
        ensures
            r.x == x,
            r.y == y,
    {
        Self { x, y }
    }
}

/// Saturating addition on `u16`, as a mathematical value.
pub open spec fn sat_add16(a: u16, b: u16) -> u16 {
    if a + b > u16::MAX { u16::MAX } else { (a + b) as u16 }
}

/// Saturating subtraction on `u16`, as a mathematical value.
pub open spec fn sat_sub16(a: u16, b: u16) -> u16 {
    if a >= b { (a - b) as u16 } else { 0 }
}

/// A rectangular area of the terminal screen.
#[derive(Debug, Default, Clone, Copy, PartialEq, Eq, Structural)]
pub struct Rect {
    pub x: u16,
    pub y: u16,
    pub width: u16,
    pub height: u16,
}

impl Rect {
    /// Creates new [`Rect`] instance.
    pub fn new(x: u16, y: u16, width: u16, height: u16) -> (r: Self)
        ensures
            r == (Rect { x, y, width, height }),
    {
        Rect { x, y, width, height }
    }

    /// First column right of the area.
    pub open spec fn spec_right(self) -> u16 {
        sat_add16(self.x, self.width)
    }

    /// First row below the area.
    pub open spec fn spec_bottom(self) -> u16 {
        sat_add16(self.y, self.height)
    }

    /// Returns the first column right of the area.
    pub fn right(&self) -> (r: u16)
        ensures
            r == self.spec_right(),
    {
        self.x.saturating_add(self.width)
    }

    /// Returns the first row below the area.
    pub fn bottom(&self) -> (r: u16)
        ensures
            r == self.spec_bottom(),
    {
        self.y.saturating_add(self.height)
    }

    /// Whether the cell at `position` lies in the area.
    pub open spec fn spec_contains(self, position: ScreenPosition) -> bool {
        self.x <= position.x < self.spec_right() && self.y <= position.y < self.spec_bottom()
    }

    /// Returns `true` if the cell at `position` lies in the area.
    pub fn contains(&self, position: ScreenPosition) -> (r: bool)
        ensures
            r == self.spec_contains(position),
    {
        position.x >= self.x && position.x < self.right() && position.y >= self.y && position.y < self.bottom()
    }
}

/// Represents a match position in the content using `x` (column) and `y` (line) coordinates and the match length.
#[derive(Debug, Clone, Copy, PartialEq, Eq, Structural)]
pub struct MatchPosition {
    pub x: usize,
    pub y: usize,
    pub length: usize,
}

impl MatchPosition {
    /// Creates new [`MatchPosition`] instance.
    pub fn new(x: usize, y: usize, length: usize) -> (r: Self)
        ensures
            r.x == x,
            r.y == y,
            r.length == length,
    {
        Self { x, y, length }
    }

    /// Returns a new [`MatchPosition`] with its `x` and `y` coordinates offset by the given amount.
    pub fn adjust_by(&self, offset: ScreenPosition) -> (r: Self)
        ensures
            r.x == sat_add(self.x, offset.x as usize),
            r.y == sat_add(self.y, offset.y as usize),
            r.length == self.length,
    {
        Self {
            x: self.x.saturating_add(offset.x as usize),
            y: self.y.saturating_add(offset.y as usize),
            length: self.length,
        }
    }
}

/// Search state: the pattern, its matches, and the highlighted match (counted from 1).
pub struct SearchData {
    pub pattern: Option<String>,
    pub matches: Option<Vec<MatchPosition>>,
    pub current: Option<usize>,
}

impl SearchData {
    /// Empty search state.
    pub fn new() -> (r: Self)
        ensures
            r.pattern is None,
            r.matches is None,
            r.current is None,
    {
        Self { pattern: None, matches: None, current: None }
    }
}

/// Returns an appropriate search message based on the search direction.
pub fn get_search_wrapped_message(forward: bool) -> (r: &'static str)
    ensures
        forward ==> r@ == "Reached end of search results"@,
        !forward ==> r@ == "Reached start of search results"@,
{
    if forward {
        "Reached end of search results"
    } else {
        "Reached start of search results"
    }
}

} // verus!
