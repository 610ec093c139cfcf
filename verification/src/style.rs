//! Styled text: what a report looks like before a terminal paints it.

use vstd::prelude::*;
use vstd::string::*;

verus! {

/// How a piece of text is to be painted.
#[derive(Clone, Copy, Debug, PartialEq, Eq, Structural)]
pub enum Style {
    Plain,
    Bold,
    Italic,
    BrightRed,
    BrightGreen,
    BrightYellow,
    BrightCyan,
}

/// A piece of text in one style.
#[derive(Clone, Debug, PartialEq, Eq)]
pub struct Span {
    pub text: String,
    pub style: Style,
}

/// The model of a span: its characters and its style.
pub struct SpanView {
    pub text: Seq<char>,
    pub style: Style,
}

impl View for Span {
    type V = SpanView;

    open spec fn view(&self) -> SpanView {
        SpanView { text: self.text@, style: self.style }
    }
}

/// One line of output: its spans from left to right.
#[derive(Clone, Debug, PartialEq, Eq)]
pub struct Line {
    pub spans: Vec<Span>,
}

impl View for Line {
    type V = Seq<SpanView>;

    open spec fn view(&self) -> Seq<SpanView> {
        self.spans@.map_values(|span: Span| span@)
    }
}

/// The model of a span of unstyled text.
pub open spec fn plain(text: Seq<char>) -> SpanView {
    SpanView { text, style: Style::Plain }
}

/// The model of a span of styled text.
pub open spec fn styled(text: Seq<char>, style: Style) -> SpanView {
    SpanView { text, style }
}

/// The characters of a line with the styles left out.
pub open spec fn line_text(line: Seq<SpanView>) -> Seq<char>
    decreases line.len(),
{
    if line.len() == 0 {
        Seq::empty()
    } else {
        line_text(line.drop_last()) + line.last().text
    }
}

/// The models of a sequence of lines.
pub open spec fn lines_view(lines: Seq<Line>) -> Seq<Seq<SpanView>> {
    lines.map_values(|line: Line| line@)
}

impl Span {
    /// A span of the given text in the given style.
    pub fn new(text: String, style: Style) -> (span: Span)
        ensures
            span@ == styled(text@, style),
    {
        Span { text, style }
    }
}

impl Line {
    /// A line without spans: a blank line.
    pub fn new() -> (line: Line)
        ensures
            line@ == Seq::<SpanView>::empty(),
    {
        let line = Line { spans: Vec::new() };
        assert(line@ =~= Seq::<SpanView>::empty());
        line
    }

    /// Adds a span at the end of the line.
    pub fn push(&mut self, text: String, style: Style)
        ensures
            final(self)@ == old(self)@.push(styled(text@, style)),
    {
        self.spans.push(Span::new(text, style));
        assert(self@ =~= old(self)@.push(styled(text@, style)));
    }

    /// The characters of the line with the styles left out.
    pub fn text(&self) -> (text: String)
        ensures
            text@ == line_text(self@),
    {
        let mut text = String::new();
        let mut i: usize = 0;
        while i < self.spans.len()
            invariant
                i <= self.spans.len(),
                text@ == line_text(self@.take(i as int)),
            decreases self.spans.len() - i,
        {
            text.append(self.spans[i].text.as_str());
            proof {
                let next = self@.take(i + 1);
                assert(next.drop_last() =~= self@.take(i as int));
                assert(next.last() == self.spans[i as int]@);
            }
            i += 1;
        }
        assert(self@.take(i as int) =~= self@);
        text
    }
}

} // verus!
