use vstd::prelude::*;

use crate::position::{sat_sub, ContentPosition};

verus! {

/// Content shown by the viewer: a number of lines, each with a width in characters.
pub trait Content {
    /// Number of lines.
    spec fn line_count(&self) -> nat;

    /// Characters count of line `line_no` (`0` for a line that does not exist).
    spec fn line_width(&self, line_no: int) -> nat;

    /// Width used for horizontal scrolling (longest line plus the cursor cell).
    spec fn widest(&self) -> nat;

    /// Start and end columns of the word at `position`, if any.
    spec fn word_span(&self, position: ContentPosition) -> Option<(usize, usize)>;

    /// Returns the length of a [`Content`] in lines.
    fn len(&self) -> (r: usize)
        ensures
            r == self.line_count(),
    ;

    /// Returns `true` if `self` has a length of zero lines.
    fn is_empty(&self) -> (r: bool)
        ensures
            r == (self.line_count() == 0),
    {
        self.len() == 0
    }

    /// Returns characters count for the longest line in the content.
    fn max_size(&self) -> (r: usize)
        ensures
            r == self.widest(),
    ;

    /// Returns characters count of the line under `line_no` index.
    fn line_size(&self, line_no: usize) -> (r: usize)
        ensures
            r == self.line_width(line_no as int),
    ;

    /// Returns max vertical start of the page for the specified height.
    fn max_vstart(&self, page_height: u16) -> (r: usize)
        ensures
            r == sat_sub(self.line_count() as usize, page_height as usize),
    {
        self.len().saturating_sub(page_height as usize)
    }

    /// Returns max horizontal start of the page for the specified width.
    fn max_hstart(&self, page_width: u16) -> (r: usize)
        ensures
            r == sat_sub(self.widest() as usize, page_width as usize),
    {
        self.max_size().saturating_sub(page_width as usize)
    }

    /// Returns the start and end (char indices) of the word that contains the character at
    /// `position.x` on line `position.y`.
    fn word_bounds(&self, position: ContentPosition) -> (r: Option<(usize, usize)>)
        ensures
            r == self.word_span(position),
    ;
}

} // verus!
