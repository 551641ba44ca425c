//! Styled text: spans of text with a style, lines of spans, and report sections.

use vstd::prelude::*;
use vstd::string::*;

verus! {

/// The terminal colors the report uses.
#[derive(Debug, Clone, Copy, PartialEq, Eq, Structural)]
pub enum Color {
    LightRed,
    LightBlue,
    LightGreen,
    LightYellow,
    Green,
    Red,
    Yellow,
    Gray,
    Magenta,
    Cyan,
    DarkGray,
}

/// A span's look: its foreground color, if any, and whether it is bold or italic.
#[derive(Debug, Clone, Copy, PartialEq, Eq, Structural)]
pub struct SpanStyle {
    pub fg: Option<Color>,
    pub bold: bool,
    pub italic: bool,
}

/// A piece of text in one style.
#[derive(Debug, Clone, PartialEq, Eq)]
pub struct Span {
    pub content: String,
    pub style: SpanStyle,
}

/// A line of spans.
#[derive(Debug, Clone, PartialEq, Eq)]
pub struct Line {
    pub spans: Vec<Span>,
}

/// A span as values: its text and style.
pub type SpanV = (Seq<char>, SpanStyle);

/// A line as values.
pub type LineV = Seq<SpanV>;

pub open spec fn span_view(s: Span) -> SpanV {
    (s.content@, s.style)
}

pub open spec fn line_view(l: Line) -> LineV {
    l.spans@.map_values(|s: Span| span_view(s))
}

pub open spec fn lines_view(v: Seq<Line>) -> Seq<LineV> {
    v.map_values(|l: Line| line_view(l))
}

/// The text of a line: its spans' texts, in order.
pub open spec fn line_text(l: LineV) -> Seq<char>
    decreases l.len(),
{
    if l.len() == 0 {
        seq![]
    } else {
        line_text(l.drop_last()) + l.last().0
    }
}

/// No color, not bold, not italic.
pub open spec fn plain_style() -> SpanStyle {
    SpanStyle { fg: None, bold: false, italic: false }
}

impl SpanStyle {
    /// The unstyled look.
    pub fn plain() -> (s: Self)
        ensures
            s == plain_style(),
    {
        SpanStyle { fg: None, bold: false, italic: false }
    }
}

impl Default for Line {
    /// The empty line.
    fn default() -> (l: Self)
        ensures
            l.spans@.len() == 0,
    {
        Line { spans: Vec::new() }
    }
}

impl Line {
    /// A line of one unstyled span.
    pub fn raw(s: &str) -> (l: Self)
        ensures
            line_view(l) == seq![(s@, plain_style())],
    {
        let mut spans: Vec<Span> = Vec::new();
        spans.push(Span { content: String::from_str(s), style: SpanStyle::plain() });
        let l = Line { spans };
        proof {
            assert(line_view(l) =~= seq![(s@, plain_style())]);
        }
        l
    }
}

/// A section of the report: its title line and its body.
pub struct Section {
    pub title: Line,
    pub body: Vec<Line>,
}

/// A blank line.
pub open spec fn blank() -> LineV {
    seq![]
}

impl Section {
    /// The title, the body, then a blank spacer line.
    pub fn into_lines(self) -> (out: Vec<Line>)
        ensures
            lines_view(out@) == seq![line_view(self.title)] + lines_view(self.body@) + seq![blank()],
    {
        let ghost title = self.title;
        let ghost body0 = self.body@;
        let mut out: Vec<Line> = Vec::new();
        out.push(self.title);
        let mut body = self.body;
        out.append(&mut body);
        out.push(Line::default());
        proof {
            assert(line_view(out@[out@.len() - 1]) =~= blank());
            assert(lines_view(out@) =~= seq![line_view(title)] + lines_view(body0) + seq![blank()]);
        }
        out
    }
}

} // verus!
