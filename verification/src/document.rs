use vstd::prelude::*;

verus! {

/// What the editor reads of the document it edits: its lines, each a
/// sequence of characters, and whether it differs from what was last saved.
pub struct Document {
    pub lines: Vec<Vec<char>>,
    pub modified: bool,
}

impl Document {
    pub open spec fn line_count(&self) -> nat {
        self.lines@.len()
    }

    /// The number of characters on line `y`, if there is such a line.
    pub open spec fn line_len(&self, y: int) -> Option<nat> {
        if 0 <= y < self.lines@.len() {
            Some(self.lines@[y]@.len())
        } else {
            None
        }
    }

    pub fn n_lines(&self) -> (n: usize)
        ensures
            n == self.line_count(),
    {
        self.lines.len()
    }

    pub fn has_been_modified(&self) -> (b: bool)
        ensures
            b == self.modified,
    {
        self.modified
    }

    /// The length of line `y`, if there is such a line.
    pub fn get_line_len(&self, y: usize) -> (r: Option<usize>)
        ensures
            match r {
                Some(n) => self.line_len(y as int) == Some(n as nat),
                None => self.line_len(y as int) is None,
            },
    {
        if y < self.lines.len() {
            Some(self.lines[y].len())
        } else {
            None
        }
    }
}

} // verus!
