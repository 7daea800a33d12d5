//! Lines of terminal output, described as data.
//!
//! A line is a list of spans, each a text with a style, and goes to one of
//! the two output streams. Nothing here prints: the lines are handed to
//! whoever owns the terminal.

use vstd::prelude::*;

verus! {

/// The colours that the messages use.
#[derive(Clone, Copy, Debug, PartialEq, Eq, Structural)]
pub enum Tone {
    Red,
    Green,
    Yellow,
    Cyan,
    BrightBlue,
    BrightGreen,
    BrightMagenta,
}

/// How a span is shown.
#[derive(Clone, Copy, Debug, PartialEq, Eq, Structural)]
pub enum Style {
    /// As it is.
    Plain,
    /// In a colour.
    Colored(Tone),
    /// In a colour and bold.
    Bold(Tone),
}

/// Where a line goes.
#[derive(Clone, Copy, Debug, PartialEq, Eq, Structural)]
pub enum Stream {
    /// Standard output: progress and results.
    Output,
    /// Standard error: what went wrong.
    Error,
}

/// A text with its style.
#[derive(Clone, Debug, PartialEq, Eq)]
pub struct Span {
    pub text: String,
    pub style: Style,
}

/// The mathematical value of a [`Span`].
pub struct SpanView {
    pub text: Seq<char>,
    pub style: Style,
}

impl View for Span {
    type V = SpanView;

    open spec fn view(&self) -> SpanView {
        SpanView { text: self.text@, style: self.style }
    }
}

/// One line of output. A line without spans is an empty line.
#[derive(Clone, Debug, PartialEq, Eq)]
pub struct Line {
    pub stream: Stream,
    pub spans: Vec<Span>,
}

/// The mathematical value of a [`Line`].
pub struct LineView {
    pub stream: Stream,
    pub spans: Seq<SpanView>,
}

/// The values of a list of spans, in order.
pub open spec fn spans_view(spans: Seq<Span>) -> Seq<SpanView> {
    Seq::new(spans.len(), |i: int| spans[i]@)
}

/// The values of a list of lines, in order.
pub open spec fn lines_view(lines: Seq<Line>) -> Seq<LineView> {
    Seq::new(lines.len(), |i: int| lines[i]@)
}

impl View for Line {
    type V = LineView;

    open spec fn view(&self) -> LineView {
        LineView { stream: self.stream, spans: spans_view(self.spans@) }
    }
}

/// The span that shows `text` in `style`.
pub open spec fn span(style: Style, text: Seq<char>) -> SpanView {
    SpanView { text, style }
}

/// The empty line on standard output.
pub open spec fn blank() -> LineView {
    LineView { stream: Stream::Output, spans: Seq::empty() }
}

/// The line on `stream` that is `text` in one style.
pub open spec fn styled(stream: Stream, style: Style, text: Seq<char>) -> LineView {
    LineView { stream, spans: seq![span(style, text)] }
}

impl Span {
    /// A span that shows `text` in `style`.
    pub fn new(style: Style, text: &str) -> (made: Span)
        ensures
            made@ == span(style, text@),
    {
        Span { text: text.to_owned(), style }
    }
}

impl Line {
    /// An empty line on standard output.
    pub fn blank() -> (line: Line)
        ensures
            line@ == blank(),
    {
        let line = Line { stream: Stream::Output, spans: Vec::new() };
        assert(line@.spans =~= blank().spans);
        line
    }

    /// A line on `stream` that shows `text` in `style`.
    pub fn styled(stream: Stream, style: Style, text: &str) -> (line: Line)
        ensures
            line@ == styled(stream, style, text@),
    {
        let mut spans: Vec<Span> = Vec::new();
        spans.push(Span::new(style, text));
        let line = Line { stream, spans };
        assert(line@.spans =~= styled(stream, style, text@).spans);
        line
    }

    /// Adds a span that shows `text` in `style` to the end of the line.
    pub fn add(&mut self, style: Style, text: &str)
        ensures
            final(self)@ == (LineView {
                stream: old(self)@.stream,
                spans: old(self)@.spans.push(span(style, text@)),
            }),
    {
        self.spans.push(Span::new(style, text));
        assert(self@.spans =~= old(self)@.spans.push(span(style, text@)));
    }
}

/// Appends `line` to `lines`.
pub fn push_line(lines: &mut Vec<Line>, line: Line)
    ensures
        lines_view(final(lines)@) == lines_view(old(lines)@).push(line@),
{
    lines.push(line);
    assert(lines_view(lines@) =~= lines_view(old(lines)@).push(line@));
}

} // verus!
