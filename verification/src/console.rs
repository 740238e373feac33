//! What a command shows: lines made of styled spans, each line bound for one
//! channel. Nothing here writes anything; the caller prints the lines.

use crate::severity::Severity;
use vstd::prelude::*;

verus! {

/// The colour of a span.
#[derive(Clone, Copy, Debug, PartialEq, Eq, Structural)]
pub enum Color {
    Red,
    Yellow,
    Blue,
    Cyan,
    Green,
    BrightWhite,
    BrightCyan,
    BrightBlue,
    BrightGreen,
}

/// How a span is to be displayed where the terminal allows it.
#[derive(Clone, Copy, Debug, PartialEq, Eq, Structural)]
pub enum Style {
    /// Neither colour nor weight.
    Plain,
    /// Bold, in the terminal's own colour.
    Bold,
    /// Dimmed, in the terminal's own colour.
    Dimmed,
    /// In a colour, at normal weight.
    Tint(Color),
    /// In a colour, in bold.
    Strong(Color),
}

/// Where a line goes.
#[derive(Clone, Copy, Debug, PartialEq, Eq, Structural)]
pub enum Channel {
    /// The standard output.
    Stdout,
    /// The error output.
    Stderr,
    /// The log, at the level of a warning.
    Warning,
}

/// A piece of text with one style.
#[derive(Clone, Debug, PartialEq, Eq)]
pub struct Span {
    pub text: String,
    pub style: Style,
}

/// One line of output, without its line end.
#[derive(Clone, Debug, PartialEq, Eq)]
pub struct Line {
    pub channel: Channel,
    pub spans: Vec<Span>,
}

/// The model of [`Span`] that the contracts speak of.
pub struct SpanModel {
    pub text: Seq<char>,
    pub style: Style,
}

/// The model of [`Line`] that the contracts speak of.
pub struct LineModel {
    pub channel: Channel,
    pub spans: Seq<SpanModel>,
}

impl DeepView for Span {
    type V = SpanModel;

    open spec fn deep_view(&self) -> SpanModel {
        SpanModel { text: self.text@, style: self.style }
    }
}

impl DeepView for Line {
    type V = LineModel;

    open spec fn deep_view(&self) -> LineModel {
        LineModel { channel: self.channel, spans: self.spans.deep_view() }
    }
}

impl Severity {
    /// The colour in which the severity is displayed.
    pub open spec fn color_of(self) -> Color {
        match self {
            Severity::High => Color::Red,
            Severity::Medium => Color::Yellow,
            Severity::Low => Color::Blue,
            Severity::Informational => Color::Cyan,
        }
    }

    /// The style of what is to stand out as being of this severity: its
    /// colour, in bold for all but `Informational`.
    pub open spec fn emphasis_of(self) -> Style {
        if self == Severity::Informational {
            Style::Tint(self.color_of())
        } else {
            Style::Strong(self.color_of())
        }
    }

    /// The style of a heading of this severity: its colour, in bold.
    pub open spec fn heading_of(self) -> Style {
        Style::Strong(self.color_of())
    }

    /// The style of details of this severity: its colour, at normal weight.
    pub open spec fn tint_of(self) -> Style {
        Style::Tint(self.color_of())
    }

    /// The colour in which the severity is displayed.
    pub fn color(self) -> (color: Color)
        ensures
            color == self.color_of(),
    {
        match self {
            Severity::High => Color::Red,
            Severity::Medium => Color::Yellow,
            Severity::Low => Color::Blue,
            Severity::Informational => Color::Cyan,
        }
    }

    /// The style of what is to stand out as being of this severity.
    pub fn emphasis(self) -> (style: Style)
        ensures
            style == self.emphasis_of(),
    {
        match self {
            Severity::Informational => Style::Tint(Color::Cyan),
            _ => Style::Strong(self.color()),
        }
    }

    /// The style of a heading of this severity.
    pub fn heading(self) -> (style: Style)
        ensures
            style == self.heading_of(),
    {
        Style::Strong(self.color())
    }

    /// The style of details of this severity.
    pub fn tint(self) -> (style: Style)
        ensures
            style == self.tint_of(),
    {
        Style::Tint(self.color())
    }
}

/// A span of the given text and style.
pub open spec fn span(text: Seq<char>, style: Style) -> SpanModel {
    SpanModel { text, style }
}

/// A span without colour or weight.
pub open spec fn plain(text: Seq<char>) -> SpanModel {
    SpanModel { text, style: Style::Plain }
}

impl LineModel {
    /// An empty line for a channel.
    pub open spec fn on(channel: Channel) -> LineModel {
        LineModel { channel, spans: Seq::empty() }
    }

    /// The line with one more span at its end.
    pub open spec fn styled(self, text: Seq<char>, style: Style) -> LineModel {
        LineModel { channel: self.channel, spans: self.spans.push(span(text, style)) }
    }

    /// The line with one more span at its end, without colour or weight.
    pub open spec fn plain(self, text: Seq<char>) -> LineModel {
        self.styled(text, Style::Plain)
    }

    /// The text of the line, without its styles.
    pub open spec fn text(self) -> Seq<char> {
        text_of(self.spans)
    }
}

/// An empty line of the standard output.
pub open spec fn blank() -> LineModel {
    LineModel::on(Channel::Stdout)
}

impl Span {
    /// A span that holds a copy of `text`.
    pub fn new(text: &str, style: Style) -> (made: Span)
        ensures
            made.deep_view() == span(text@, style),
    {
        Span { text: text.to_owned(), style }
    }

    /// A span without colour or weight that holds a copy of `text`.
    pub fn plain(text: &str) -> (made: Span)
        ensures
            made.deep_view() == plain(text@),
    {
        Span { text: text.to_owned(), style: Style::Plain }
    }
}

impl Line {
    /// An empty line for a channel.
    pub fn on(channel: Channel) -> (line: Line)
        ensures
            line.deep_view() == LineModel::on(channel),
    {
        let line = Line { channel, spans: Vec::new() };
        proof {
            assert(line.spans.deep_view() =~= Seq::<SpanModel>::empty());
        }
        line
    }

    /// An empty line of the standard output.
    pub fn blank() -> (line: Line)
        ensures
            line.deep_view() == blank(),
    {
        Line::on(Channel::Stdout)
    }

    /// The line with one more span at its end, which holds a copy of `text`.
    pub fn styled(self, text: &str, style: Style) -> (line: Line)
        ensures
            line.deep_view() == self.deep_view().styled(text@, style),
    {
        let mut line = self;
        let ghost before = line.spans.deep_view();
        line.spans.push(Span::new(text, style));
        proof {
            assert(line.spans.deep_view() =~= before.push(span(text@, style)));
        }
        line
    }

    /// The line with one more span at its end, without colour or weight.
    pub fn plain(self, text: &str) -> (line: Line)
        ensures
            line.deep_view() == self.deep_view().plain(text@),
    {
        self.styled(text, Style::Plain)
    }

    /// The text of the line, without its styles.
    pub fn text(&self) -> (text: String)
        ensures
            text@ == self.deep_view().text(),
    {
        let mut text = String::new();
        let mut i: usize = 0;
        while i < self.spans.len()
            invariant
                i <= self.spans.len(),
                text@ == text_of(self.deep_view().spans.take(i as int)),
            decreases self.spans.len() - i,
        {
            proof {
                let longer = self.deep_view().spans.take(i + 1);
                assert(longer.drop_last() =~= self.deep_view().spans.take(i as int));
            }
            text.append(self.spans[i].text.as_str());
            i += 1;
        }
        proof {
            assert(self.deep_view().spans.take(self.spans.len() as int) =~= self.deep_view().spans);
        }
        text
    }
}

/// The texts of the spans, one after another.
pub open spec fn text_of(spans: Seq<SpanModel>) -> Seq<char>
    decreases spans.len(),
{
    if spans.len() == 0 {
        Seq::<char>::empty()
    } else {
        text_of(spans.drop_last()) + spans.last().text
    }
}

/// Adds a line at the end of the lines.
pub fn put(lines: &mut Vec<Line>, line: Line)
    ensures
        final(lines).deep_view() == old(lines).deep_view().push(line.deep_view()),
{
    lines.push(line);
}

/// Adds lines at the end of the lines.
pub fn put_all(lines: &mut Vec<Line>, more: Vec<Line>)
    ensures
        final(lines).deep_view() == old(lines).deep_view() + more.deep_view(),
{
    let mut more = more;
    lines.append(&mut more);
}

} // verus!
