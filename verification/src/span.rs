//! Byte ranges into source text.
use vstd::prelude::*;

verus! {

/// A range of bytes in a source file: `len` bytes starting at byte `start`.
#[derive(Debug, Clone, Copy, PartialEq, Eq, Structural)]
pub struct Span {
    pub start: usize,
    pub len: usize,
}

impl Span {
    /// Exclusive end offset of the span, as a mathematical integer.
    pub open spec fn end_spec(self) -> int {
        self.start + self.len
    }

    /// Whether the end offset of the span fits in a `usize`.
    pub open spec fn fits(self) -> bool {
        self.start + self.len <= usize::MAX
    }

    /// Creates the span of `len` bytes starting at `start`.
    pub fn new(start: usize, len: usize) -> (s: Span)
        ensures
            s.start == start,
            s.len == len,
    {
        Span { start, len }
    }

    /// Exclusive end offset of the span.
    pub fn end(&self) -> (e: usize)
        requires
            self.fits(),
        ensures
            e == self.end_spec(),
    {
        self.start + self.len
    }

    /// The smallest span that covers both `self` and `other`.
    pub open spec fn merge_spec(self, other: Span) -> Span {
        let start = if self.start <= other.start { self.start } else { other.start };
        let end = if self.end_spec() >= other.end_spec() {
            self.end_spec()
        } else {
            other.end_spec()
        };
        Span { start, len: (end - start) as usize }
    }

    /// The smallest span that covers both `self` and `other`.
    pub fn merge(&self, other: &Span) -> (s: Span)
        requires
            self.fits(),
            other.fits(),
        ensures
            s == self.merge_spec(*other),
            s.fits(),
            s.start <= self.start,
            s.start <= other.start,
            s.end_spec() >= self.end_spec(),
            s.end_spec() >= other.end_spec(),
    {
        let start = if self.start <= other.start { self.start } else { other.start };
        let a = self.start + self.len;
        let b = other.start + other.len;
        let end = if a >= b { a } else { b };
        Span { start, len: end - start }
    }
}

/// Merging is symmetric: the span covering `a` and `b` covers `b` and `a`.
pub proof fn law_merge_symmetric(a: Span, b: Span)
    requires
        a.fits(),
        b.fits(),
    ensures
        a.merge_spec(b) == b.merge_spec(a),
{
}

/// Merging is idempotent: a span merged with itself is itself.
pub proof fn law_merge_idempotent(a: Span)
    requires
        a.fits(),
    ensures
        a.merge_spec(a) == a,
{
}

/// The merged span is the smallest that covers both: any span that covers
/// `a` and `b` covers their merge.
pub proof fn law_merge_smallest(a: Span, b: Span, c: Span)
    requires
        a.fits(),
        b.fits(),
        c.start <= a.start,
        c.start <= b.start,
        a.end_spec() <= c.end_spec(),
        b.end_spec() <= c.end_spec(),
    ensures
        c.start <= a.merge_spec(b).start,
        a.merge_spec(b).end_spec() <= c.end_spec(),
{
}

} // verus!
