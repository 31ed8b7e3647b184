//! Every call into the `syntect` crate. Verus takes the contracts in this file
//! on trust: each says what the function it names does, as that crate's
//! source shows it, and nothing here is proved.

use vstd::prelude::*;

use syntect::easy::HighlightLines;
use syntect::highlighting::{Color, FontStyle, Style, ThemeSet};
use syntect::parsing::SyntaxSet;
use syntect::util::{as_24_bit_terminal_escaped, LinesWithEndings};

use crate::spans::{escaped, is_line_split, Rgba, Span, SpanView};

verus! {

/// `syntect::parsing::SyntaxSet`: a set of grammars. Nothing is known of
/// what is inside.
#[verifier::external_type_specification]
#[verifier::external_body]
pub struct ExSyntaxSet(SyntaxSet);

/// `syntect::highlighting::ThemeSet`: colour themes by name. Nothing is known
/// of what is inside.
#[verifier::external_type_specification]
#[verifier::external_body]
pub struct ExThemeSet(ThemeSet);

/// `syntect::easy::HighlightLines`: a highlighter in the middle of a text. It
/// remembers the lines it was given, so what it answers for a line depends on
/// the lines before. Nothing is known of what is inside.
#[verifier::external_type_specification]
#[verifier::external_body]
pub struct ExHighlightLines<'a>(HighlightLines<'a>);

/// `syntect::Error`: why the highlighter failed on a line. Nothing is known
/// of what is inside.
#[verifier::external_type_specification]
#[verifier::external_body]
pub struct ExSyntectError(syntect::Error);

/// Whether this is the set of grammars bundled with `syntect`. Every grammar
/// of that set has the start context that a new highlighter looks up; a set
/// put together by hand need not.
pub uninterp spec fn bundled(syntaxes: SyntaxSet) -> bool;

/// Whether this is the set of colour themes bundled with `syntect`.
pub uninterp spec fn bundled_themes(themes: ThemeSet) -> bool;

/// The highlighter that starts a text, for the grammar that `syntaxes` holds
/// for files ending in `extension` and the theme that `themes` holds under
/// the name `theme`; `None` where either is missing. Looking both up and
/// setting up the highlighter reads nothing but these four values.
pub uninterp spec fn fresh(
    syntaxes: SyntaxSet,
    themes: ThemeSet,
    extension: Seq<char>,
    theme: Seq<char>,
) -> Option<HighlightLines<'static>>;

/// The spans that a highlighter in this state gives for `line`, or `None`
/// where it fails on it. The highlighter reads its own state, the line and
/// the syntax set, and nothing else.
pub uninterp spec fn answer(
    lines: HighlightLines<'_>,
    line: Seq<char>,
    syntaxes: SyntaxSet,
) -> Option<Seq<SpanView>>;

/// The state of a highlighter after it has given its spans for `line`.
pub uninterp spec fn advanced(
    lines: HighlightLines<'_>,
    line: Seq<char>,
    syntaxes: SyntaxSet,
) -> HighlightLines<'static>;

/// Whether the highlighter took its grammar from this syntax set. `syntect`
/// asks that a highlighter is only ever handed the set it was built from:
/// with another one it may answer wrongly or panic.
pub uninterp spec fn built_with(lines: HighlightLines<'_>, syntaxes: SyntaxSet) -> bool;

/// `SyntaxSet::load_defaults_newlines`: the grammars bundled with the crate,
/// in the variant for lines that keep their line terminator. They are
/// unpacked from data inside the crate; no file is read.
#[verifier::external_body]
pub(crate) fn default_syntaxes() -> (syntaxes: SyntaxSet)
    ensures
        bundled(syntaxes),
{
    SyntaxSet::load_defaults_newlines()
}

/// `ThemeSet::load_defaults`: the colour themes bundled with the crate,
/// unpacked from data inside the crate.
#[verifier::external_body]
pub(crate) fn default_themes() -> (themes: ThemeSet)
    ensures
        bundled_themes(themes),
{
    ThemeSet::load_defaults()
}

/// `HighlightLines::new`, on the grammar that
/// `SyntaxSet::find_syntax_by_extension` finds for `extension` and the theme
/// stored under the name `theme` in `ThemeSet::themes`. `None` where either
/// is missing. The grammars must be the bundled ones. The contract gives
/// the outcome its name, [`fresh`], and claims that a highlighter that comes
/// back was built from `syntaxes`; it does not claim that any extension or
/// theme is found.
#[verifier::external_body]
pub(crate) fn line_highlighter<'a>(
    syntaxes: &SyntaxSet,
    themes: &'a ThemeSet,
    extension: &str,
    theme: &str,
) -> (found: Option<HighlightLines<'a>>)
    requires
        bundled(*syntaxes),
    ensures
        found == fresh(*syntaxes, *themes, extension@, theme@),
        found matches Some(lines) ==> built_with(lines, *syntaxes),
{
    let syntax = syntaxes.find_syntax_by_extension(extension)?;
    let theme = themes.themes.get(theme)?;
    Some(HighlightLines::new(syntax, theme))
}

/// `HighlightLines::highlight_line`: the next line of the text, cut into
/// spans with their styles, or the error that stopped the highlighter. The
/// styles are copied field by field into [`Span`]s. The highlighter must have
/// been built from `syntaxes`. The contract gives the spans and the state
/// afterwards their names, [`answer`] and [`advanced`]; of the spans
/// themselves it claims nothing, not even that they add up to the line. It
/// claims that the highlighter still belongs to `syntaxes` afterwards.
#[verifier::external_body]
pub(crate) fn highlight_line(
    lines: &mut HighlightLines<'_>,
    line: &str,
    syntaxes: &SyntaxSet,
) -> (styled: Result<Vec<Span>, syntect::Error>)
    requires
        built_with(*old(lines), *syntaxes),
    ensures
        built_with(*final(lines), *syntaxes),
        styled matches Ok(spans) ==> answer(*old(lines), line@, *syntaxes) == Some(
            spans.deep_view(),
        ) && *final(lines) == advanced(*old(lines), line@, *syntaxes),
        styled is Err ==> answer(*old(lines), line@, *syntaxes) is None,
{
    let ranges = lines.highlight_line(line, syntaxes)?;
    Ok(ranges.into_iter().map(|(style, text)| {
        let (fg, bg) = (style.foreground, style.background);
        Span {
            foreground: Rgba { r: fg.r, g: fg.g, b: fg.b, a: fg.a },
            background: Rgba { r: bg.r, g: bg.g, b: bg.b, a: bg.a },
            font_style: style.font_style.bits(),
            text: text.to_string(),
        }
    }).collect())
}

/// `syntect::util::LinesWithEndings`: the lines of a text, each with its line
/// terminator. The iterator cuts after every line feed and hands out what is
/// left after the last one, if anything is; the contract says so.
#[verifier::external_body]
pub(crate) fn split_lines(text: &str) -> (lines: Vec<String>)
    ensures
        is_line_split(lines.deep_view(), text@),
{
    LinesWithEndings::from(text).map(|line| line.to_string()).collect()
}

/// `syntect::util::as_24_bit_terminal_escaped`: the spans with the escape
/// sequences that select their colours. For each span the function writes
/// `ESC[48;2;r;g;bm` with the background colour if asked to, then
/// `ESC[38;2;r;g;bm` with the foreground colour blended over the background
/// by its opacity, then the text; the numbers are decimal. The contract
/// states exactly that.
#[verifier::external_body]
pub(crate) fn terminal_escaped(spans: &Vec<Span>, with_background: bool) -> (out: String)
    ensures
        out@ == escaped(spans.deep_view(), with_background),
{
    let styled: Vec<(Style, &str)> = spans.iter().map(|span| {
        let (fg, bg) = (span.foreground, span.background);
        let style = Style {
            foreground: Color { r: fg.r, g: fg.g, b: fg.b, a: fg.a },
            background: Color { r: bg.r, g: bg.g, b: bg.b, a: bg.a },
            font_style: FontStyle::from_bits_truncate(span.font_style),
        };
        (style, span.text.as_str())
    }).collect();
    as_24_bit_terminal_escaped(&styled, with_background)
}

} // verus!
