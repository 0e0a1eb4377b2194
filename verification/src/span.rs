//! Byte spans and row/column positions of syntax-tree nodes.

use vstd::prelude::*;

verus! {

/// A row/column position in a source file, both zero-based.
#[derive(Clone, Copy, Debug, PartialEq, Eq, Structural)]
pub struct Point {
    pub row: usize,
    pub column: usize,
}

/// The extent of a syntax-tree node: a half-open byte range together with
/// the row/column positions of its two ends.
#[derive(Clone, Copy, Debug, PartialEq, Eq, Structural)]
pub struct Span {
    pub start_byte: usize,
    pub end_byte: usize,
    pub start: Point,
    pub end: Point,
}

impl Span {
    /// A span is well formed when its byte range is not reversed.
    pub open spec fn wf(self) -> bool {
        self.start_byte <= self.end_byte
    }

    /// `self` covers `other`: `other`'s byte range lies inside `self`'s.
    pub open spec fn spec_contains(self, other: Span) -> bool {
        self.start_byte <= other.start_byte && other.end_byte <= self.end_byte
    }

    pub fn new(start_byte: usize, end_byte: usize, start: Point, end: Point) -> (r: Span)
        ensures
            r == (Span { start_byte, end_byte, start, end }),
    {
        Span { start_byte, end_byte, start, end }
    }

    /// Whether `other`'s byte range lies inside `self`'s.
    pub fn contains(&self, other: &Span) -> (r: bool)
        ensures
            r == self.spec_contains(*other),
    {
        self.start_byte <= other.start_byte && other.end_byte <= self.end_byte
    }

    /// The number of bytes the span covers.
    pub fn len(&self) -> (r: usize)
        requires
            self.wf(),
        ensures
            r == self.end_byte - self.start_byte,
    {
        self.end_byte - self.start_byte
    }
}

/// Containment of spans is transitive.
pub proof fn lemma_contains_transitive(a: Span, b: Span, c: Span)
    requires
        a.spec_contains(b),
        b.spec_contains(c),
    ensures
        a.spec_contains(c),
{
}

} // verus!
