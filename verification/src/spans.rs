//! Styled text and its rendering with 24-bit colour escape sequences.

use vstd::prelude::*;

verus! {

/// A colour with its opacity, each component from 0 to 255.
#[derive(Debug, Clone, Copy, PartialEq, Eq, Structural)]
pub struct Rgba {
    pub r: u8,
    pub g: u8,
    pub b: u8,
    pub a: u8,
}

/// A run of text drawn in one style.
#[derive(Debug, Clone, PartialEq, Eq)]
pub struct Span {
    pub foreground: Rgba,
    pub background: Rgba,
    /// Bold, underline and italic as a bit set. The terminal rendering does
    /// not use it.
    pub font_style: u8,
    pub text: String,
}

/// The mathematical content of a [`Span`].
pub struct SpanView {
    pub foreground: Rgba,
    pub background: Rgba,
    pub font_style: u8,
    pub text: Seq<char>,
}

impl View for Span {
    type V = SpanView;

    open spec fn view(&self) -> SpanView {
        SpanView {
            foreground: self.foreground,
            background: self.background,
            font_style: self.font_style,
            text: self.text@,
        }
    }
}

impl DeepView for Span {
    type V = SpanView;

    open spec fn deep_view(&self) -> SpanView {
        self@
    }
}

/// The text of the spans, one after the other, without any styling.
pub open spec fn plain_text(spans: Seq<SpanView>) -> Seq<char> {
    spans.map_values(|span: SpanView| span.text).flatten()
}

/// The decimal digit for a number below ten.
pub open spec fn digit(value: nat) -> char {
    seq!['0', '1', '2', '3', '4', '5', '6', '7', '8', '9'][value as int]
}

/// A number in decimal, without leading zeros.
pub open spec fn decimal(value: nat) -> Seq<char>
    decreases value,
{
    if value < 10 {
        seq![digit(value)]
    } else {
        decimal(value / 10).push(digit(value % 10))
    }
}

/// One channel of a foreground colour laid over a background: the weighted
/// mean of the two by the foreground's opacity, rounded down.
pub open spec fn blended_channel(foreground: u8, background: u8, opacity: u8) -> nat {
    ((foreground as nat) * (opacity as nat) + (background as nat) * ((255 - opacity) as nat))
        / 255
}

/// The foreground colour as it shows over the background: itself where it is
/// fully opaque, else blended channel by channel.
pub open spec fn shown_foreground(span: SpanView) -> (nat, nat, nat) {
    let fg = span.foreground;
    let bg = span.background;
    if fg.a == 255 {
        (fg.r as nat, fg.g as nat, fg.b as nat)
    } else {
        (
            blended_channel(fg.r, bg.r, fg.a),
            blended_channel(fg.g, bg.g, fg.a),
            blended_channel(fg.b, bg.b, fg.a),
        )
    }
}

/// The escape sequence that selects a 24-bit colour: `ESC [ 38 ; 2 ; r ; g ;
/// b m` for the foreground, with `48` in place of `38` for the background.
pub open spec fn colour_code(background: bool, r: nat, g: nat, b: nat) -> Seq<char> {
    seq!['\u{1b}', '[', if background { '4' } else { '3' }, '8', ';', '2', ';'] + decimal(r)
        + seq![';'] + decimal(g) + seq![';'] + decimal(b) + seq!['m']
}

/// One span for a terminal: its background colour if asked for, its shown
/// foreground colour, then its text. No sequence resets the colours.
pub open spec fn escaped_span(span: SpanView, with_background: bool) -> Seq<char> {
    let bg = span.background;
    let fg = shown_foreground(span);
    (if with_background {
        colour_code(true, bg.r as nat, bg.g as nat, bg.b as nat)
    } else {
        Seq::empty()
    }) + colour_code(false, fg.0, fg.1, fg.2) + span.text
}

/// The spans for a terminal, one after the other.
pub open spec fn escaped(spans: Seq<SpanView>, with_background: bool) -> Seq<char> {
    spans.map_values(|span: SpanView| escaped_span(span, with_background)).flatten()
}

/// Styled lines for a terminal, one after the other, each with its
/// background.
pub open spec fn rendered(lines: Seq<Seq<SpanView>>) -> Seq<char> {
    lines.map_values(|line: Seq<SpanView>| escaped(line, true)).flatten()
}

/// The unstyled text of each styled line.
pub open spec fn line_texts(lines: Seq<Seq<SpanView>>) -> Seq<Seq<char>> {
    lines.map_values(|line: Seq<SpanView>| plain_text(line))
}

/// The unstyled text of styled lines, one line after the other.
pub open spec fn whole_text(lines: Seq<Seq<SpanView>>) -> Seq<char> {
    line_texts(lines).flatten()
}

/// Whether `lines` cuts `text` into its lines, each with its line
/// terminator: put together they give `text`, none is empty, a line feed
/// stands only at the end of a line, and every line but the last ends in
/// one.
pub open spec fn is_line_split(lines: Seq<Seq<char>>, text: Seq<char>) -> bool {
    &&& lines.flatten() == text
    &&& forall|i: int| 0 <= i < lines.len() ==> (#[trigger] lines[i]).len() > 0
    &&& forall|i: int, j: int|
        0 <= i < lines.len() && 0 <= j < lines[i].len() - 1 ==> #[trigger] lines[i][j] != '\n'
    &&& forall|i: int| 0 <= i < lines.len() - 1 ==> (#[trigger] lines[i]).last() == '\n'
}

} // verus!
