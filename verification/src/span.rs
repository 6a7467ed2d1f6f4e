//! Source locations: a position (line and column), a span (optional start and
//! end positions), and a wrapper that pairs a parsed value with its span.
use vstd::prelude::*;

verus! {

/// A 1-based line/column position in the source text.
#[derive(Clone, Copy, Debug, PartialEq, Eq, Structural)]
pub struct Position {
    pub line: u32,
    pub column: u32,
}

impl Position {
    pub fn new(line: u32, column: u32) -> (r: Position)
        ensures
            r.line == line && r.column == column,
    {
        Position { line, column }
    }
}

/// A source range. A span that has no start has no end: values synthesized by
/// software rather than parsed carry a fully absent span.
#[derive(Clone, Copy, Debug, PartialEq, Eq, Structural)]
pub struct Span {
    start: Option<Position>,
    end: Option<Position>,
}

impl Span {
    /// The start-implies-end shape every constructed span has.
    pub open spec fn wf(self) -> bool {
        self.spec_start() is None ==> self.spec_end() is None
    }

    pub closed spec fn spec_start(self) -> Option<Position> {
        self.start
    }

    pub closed spec fn spec_end(self) -> Option<Position> {
        self.end
    }

    /// Build a span; an end without a start is dropped so the result is
    /// always well formed.
    pub fn new(start: Option<Position>, end: Option<Position>) -> (r: Span)
        ensures
            r.spec_start() == start,
            start is Some ==> r.spec_end() == end,
            r.wf(),
    {
        match start {
            Some(_) => Span { start, end },
            None => Span { start: None, end: None },
        }
    }

    /// A span with no location information at all.
    pub fn blank() -> (r: Span)
        ensures
            r.spec_start() is None && r.spec_end() is None,
            r.wf(),
    {
        Span { start: None, end: None }
    }

    pub fn start(&self) -> (r: &Option<Position>)
        ensures
            *r == self.spec_start(),
    {
        &self.start
    }

    pub fn end(&self) -> (r: &Option<Position>)
        ensures
            *r == self.spec_end(),
    {
        &self.end
    }
}

/// A parsed value together with the span of the text it came from.
#[derive(Clone, Debug, PartialEq, Eq)]
pub struct Spanned<T> {
    pub span: Span,
    pub value: T,
}

/// The mathematical image of a `Spanned<T>`: the same span beside the model
/// of the value.
pub struct SpannedModel<V> {
    pub span: Span,
    pub value: V,
}

impl<T: View> View for Spanned<T> {
    type V = SpannedModel<<T as View>::V>;

    open spec fn view(&self) -> Self::V {
        SpannedModel { span: self.span, value: self.value@ }
    }
}

impl<T> Spanned<T> {
    pub fn new(span: Span, value: T) -> (r: Spanned<T>)
        ensures
            r.span == span,
            r.value == value,
    {
        Spanned { span, value }
    }
}

} // verus!
