//! Source positions: a file identifier with a 1-based line and column.

use vstd::prelude::*;

verus! {

/// Position of a character in a source file.
///
/// The line and the column both start at 1. The file is identified by a
/// number; the caller keeps the mapping from numbers to file names.
#[derive(Clone, Copy, PartialEq, Eq, Structural, Debug)]
pub struct Location {
    /// Identifier of the file the location points into.
    pub file: usize,
    /// Line number, at least 1.
    pub line: usize,
    /// Column number, at least 1.
    pub col: usize,
}

/// Order on locations: first by line, then by column.
pub open spec fn loc_le(a: Location, b: Location) -> bool {
    a.line < b.line || (a.line == b.line && a.col <= b.col)
}

/// Strict order on locations: first by line, then by column.
pub open spec fn loc_lt(a: Location, b: Location) -> bool {
    a.line < b.line || (a.line == b.line && a.col < b.col)
}

impl Location {
    /// A location is well formed when its line and column are both at least 1.
    pub open spec fn wf(self) -> bool {
        self.line >= 1 && self.col >= 1
    }

    /// First position of a file: line 1, column 1.
    pub fn new(file: usize) -> (r: Self)
        ensures
            r == (Location { file, line: 1, col: 1 }),
    {
        Location { file, line: 1, col: 1 }
    }

    /// Moves one column to the right.
    pub fn incr_col(&mut self)
        requires
            old(self).col < usize::MAX,
        ensures
            *final(self) == (Location { col: (old(self).col + 1) as usize, ..*old(self) }),
    {
        self.col = self.col + 1;
    }

    /// Moves to the next line, keeping the column.
    pub fn incr_line(&mut self)
        requires
            old(self).line < usize::MAX,
        ensures
            *final(self) == (Location { line: (old(self).line + 1) as usize, ..*old(self) }),
    {
        self.line = self.line + 1;
    }

    /// Moves to the first column of the next line.
    pub fn new_line(&mut self)
        requires
            old(self).line < usize::MAX,
        ensures
            *final(self) == (Location {
                line: (old(self).line + 1) as usize,
                col: 1,
                ..*old(self)
            }),
    {
        self.line = self.line + 1;
        self.col = 1;
    }

    /// The location `offset` columns in the past, saturating at column 1.
    ///
    /// This annotates the start of a multi-character token once the cursor
    /// stands just after its end.
    pub fn into_past(self, offset: usize) -> (r: Self)
        ensures
            r == self.spec_into_past(offset),
    {
        Location {
            col: if self.col > offset {
                self.col - offset
            } else {
                1
            },
            ..self
        }
    }

    /// Specification twin of [`Location::into_past`].
    pub open spec fn spec_into_past(self, offset: usize) -> Location {
        Location {
            col: if self.col > offset {
                (self.col - offset) as usize
            } else {
                1
            },
            ..self
        }
    }

    /// The triple of raw components.
    pub fn get(self) -> (r: (usize, usize, usize))
        ensures
            r == (self.file, self.line, self.col),
    {
        (self.file, self.line, self.col)
    }
}

} // verus!
