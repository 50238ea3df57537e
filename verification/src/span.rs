use vstd::prelude::*;

verus! {

/// A half-open byte range `[start, end)` into a source text.
#[derive(Clone, Copy, Debug, PartialEq, Eq, Hash, Structural)]
pub struct TextRange {
    pub start: usize,
    pub end: usize,
}

impl TextRange {
    /// The range from `start` up to, but not including, `end`.
    pub fn new(start: usize, end: usize) -> (r: TextRange)
        ensures
            r.start == start,
            r.end == end,
    {
        TextRange { start, end }
    }

    /// The empty range at offset zero, used where a node has no source text of
    /// its own.
    pub fn empty() -> (r: TextRange)
        ensures
            r.start == 0,
            r.end == 0,
    {
        TextRange { start: 0, end: 0 }
    }

    /// Number of bytes covered; zero when `end` does not exceed `start`.
    pub fn len(&self) -> (n: usize)
        ensures
            n == if self.end >= self.start { self.end - self.start } else { 0 },
    {
        if self.end >= self.start {
            self.end - self.start
        } else {
            0
        }
    }
}

impl Default for TextRange {
    fn default() -> (r: TextRange)
        ensures
            r.start == 0,
            r.end == 0,
    {
        TextRange { start: 0, end: 0 }
    }
}

} // verus!
