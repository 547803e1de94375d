//! Source locations.

use vstd::prelude::*;

verus! {

/// A range of bytes in one source file. Files are told apart by a number
/// that the host hands out; the number 0 stands for no file at all.
#[derive(Debug, Clone, Copy, PartialEq, Eq, Structural, Hash)]
pub struct Span {
    /// The number of the file.
    pub file: u32,
    /// The offset of the first byte.
    pub start: u32,
    /// The offset behind the last byte.
    pub end: u32,
}

impl Span {
    /// A span over the bytes `start..end` of the file with the given number.
    pub fn new(file: u32, start: u32, end: u32) -> (span: Span)
        ensures
            span == (Span { file, start, end }),
    {
        Span { file, start, end }
    }

    /// The span that points nowhere.
    pub fn detached() -> (span: Span)
        ensures
            span == (Span { file: 0, start: 0, end: 0 }),
    {
        Span { file: 0, start: 0, end: 0 }
    }

    /// Whether the span points into no file.
    pub open spec fn spec_is_detached(&self) -> bool {
        self.file == 0
    }

    /// Whether the span points into no file.
    #[verifier::when_used_as_spec(spec_is_detached)]
    pub fn is_detached(&self) -> (detached: bool)
        ensures
            detached == self.spec_is_detached(),
    {
        self.file == 0
    }

    /// Whether this span lies in the same file as `inner` and covers it.
    pub open spec fn surrounds(self, inner: Span) -> bool {
        self.file == inner.file && self.start <= inner.start && self.end >= inner.end
    }

    /// Whether this span lies in the same file as `inner` and covers it.
    pub fn contains(&self, inner: &Span) -> (covered: bool)
        ensures
            covered == self.surrounds(*inner),
    {
        self.file == inner.file && self.start <= inner.start && self.end >= inner.end
    }
}

/// A value together with its place in the source.
#[derive(Debug, PartialEq, Eq, Hash)]
pub struct Spanned<T> {
    /// The value.
    pub v: T,
    /// Where it was written.
    pub span: Span,
}

impl<T> Spanned<T> {
    /// Pairs a value with its span.
    pub fn new(v: T, span: Span) -> (spanned: Self)
        ensures
            spanned.v == v,
            spanned.span == span,
    {
        Spanned { v, span }
    }
}

} // verus!
