use vstd::prelude::*;
use vstd::string::StrSliceExecFns;

use crate::cell::{Cell, CellView};
use crate::pattern::{push_spaces, spaces, truncate, truncated};

verus! {

/// The text a cell shows (`n/a` when it has none).
pub open spec fn shown_text(c: CellView) -> Seq<char> {
    match c.text {
        Some(t) => t,
        None => "n/a"@,
    }
}

/// The text a cell sorts by: its sort text, else its text, else `n/a`.
pub open spec fn sorting_text(c: CellView) -> Seq<char> {
    match c.sort_text {
        Some(s) => s,
        None => shown_text(c),
    }
}

/// Basic table row.
pub struct BasicRow {
    uid: String,
    name: String,
    cells: Vec<Cell>,
}

impl BasicRow {
    /// The row's unique id.
    pub closed spec fn spec_uid(&self) -> Seq<char> {
        self.uid@
    }

    /// The row's name.
    pub closed spec fn spec_name(&self) -> Seq<char> {
        self.name@
    }

    /// The row's cells, past its group and name columns.
    pub closed spec fn spec_cells(&self) -> Seq<CellView> {
        self.cells@.map_values(|c: Cell| c@)
    }

    /// Text of column `column`: the (empty) group, the name, then the cells; `n/a` past the last cell.
    pub open spec fn spec_column_text(&self, column: int) -> Seq<char> {
        if column == 0 {
            seq![]
        } else if column == 1 {
            self.spec_name()
        } else if column - 2 < self.spec_cells().len() {
            shown_text(self.spec_cells()[column - 2])
        } else {
            "n/a"@
        }
    }

    /// Text by which column `column` sorts.
    pub open spec fn spec_column_sort_text(&self, column: int) -> Seq<char> {
        if column == 0 {
            seq![]
        } else if column == 1 {
            self.spec_name()
        } else if column - 2 < self.spec_cells().len() {
            sorting_text(self.spec_cells()[column - 2])
        } else {
            "n/a"@
        }
    }

    /// Creates a new [`BasicRow`].
    pub fn new(uid: String, name: String, cells: Vec<Cell>) -> (r: Self)
        ensures
            r.spec_uid() == uid@,
            r.spec_name() == name@,
            r.spec_cells() == cells@.map_values(|c: Cell| c@),
    {
        BasicRow { uid, name, cells }
    }

    /// Returns the row's unique id.
    pub fn uid(&self) -> (r: &str)
        ensures
            r@ == self.spec_uid(),
    {
        self.uid.as_str()
    }

    /// Returns the row's group, which is empty.
    pub fn group(&self) -> (r: &str)
        ensures
            r@ == Seq::<char>::empty(),
    {
        proof {
            reveal_strlit("");
        }
        ""
    }

    /// Returns the row's name.
    pub fn name(&self) -> (r: &str)
        ensures
            r@ == self.spec_name(),
    {
        self.name.as_str()
    }

    /// Returns the name truncated to `width` characters and padded with spaces to that width.
    pub fn get_name(&self, width: usize) -> (r: String)
        ensures
            r@ == truncated(self.spec_name(), width as nat) + spaces(
                (width - truncated(self.spec_name(), width as nat).len()) as nat,
            ),
    {
        let mut text = truncate(self.name.as_str(), width);
        let len = text.as_str().unicode_len();
        push_spaces(&mut text, width - len);
        text
    }

    /// Returns the text of column `column`.
    pub fn column_text(&self, column: usize) -> (r: &str)
        ensures
            r@ == self.spec_column_text(column as int),
    {
        proof {
            reveal_strlit("");
            reveal_strlit("n/a");
        }
        if column == 0 {
            ""
        } else if column == 1 {
            self.name.as_str()
        } else if column - 2 < self.cells.len() {
            let r = self.cells[column - 2].text();
            assert(self.spec_cells()[column - 2] == self.cells@[column - 2]@);
            r
        } else {
            "n/a"
        }
    }

    /// Returns the text by which column `column` sorts.
    pub fn column_sort_text(&self, column: usize) -> (r: &str)
        ensures
            r@ == self.spec_column_sort_text(column as int),
    {
        proof {
            reveal_strlit("");
            reveal_strlit("n/a");
        }
        if column == 0 {
            ""
        } else if column == 1 {
            self.name.as_str()
        } else if column - 2 < self.cells.len() {
            let r = self.cells[column - 2].sort_text();
            assert(self.spec_cells()[column - 2] == self.cells@[column - 2]@);
            r
        } else {
            "n/a"
        }
    }
}

} // verus!
