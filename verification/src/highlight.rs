//! Syntax highlighting of a backend's answer for a terminal.
//!
//! The colours come from the `syntect` crate. What this module adds is
//! proved: whatever the highlighter answers, the text that is printed holds
//! the characters of the answer, all of them and in order.

use vstd::prelude::*;
use vstd::string::StringExecFns;

use syntect::easy::HighlightLines;
use syntect::highlighting::ThemeSet;
use syntect::parsing::SyntaxSet;

use crate::spans::{
    escaped, is_line_split, line_texts, plain_text, rendered, whole_text, Span, SpanView,
};
use crate::syntect_calls::{
    advanced, answer, built_with, bundled, bundled_themes, default_syntaxes, default_themes, fresh,
    highlight_line, line_highlighter, split_lines, terminal_escaped,
};
use crate::text::same_text;
use crate::visible::{
    escape_free, escape_free_text_has_escape_free_spans, plain_text_shows_as_it_is,
    rendering_shows_the_text, visible,
};

verus! {

/// Why a text could not be highlighted.
#[derive(Debug, Clone, Copy, PartialEq, Eq, Structural)]
pub enum HighlightError {
    /// The grammar or the colour theme is not among the bundled ones.
    Unavailable,
    /// The highlighter failed on a line.
    Rejected,
    /// The highlighter returned spans that do not add up to the line.
    Garbled,
}

/// The text of the spans, one after the other, without any styling.
pub fn unstyled(spans: &Vec<Span>) -> (text: String)
    ensures
        text@ == plain_text(spans.deep_view()),
{
    let mut text = String::new();
    let mut i: usize = 0;
    while i < spans.len()
        invariant
            i <= spans.len(),
            text@ == plain_text(spans.deep_view().take(i as int)),
        decreases spans.len() - i,
    {
        proof {
            let done = spans.deep_view().take(i as int);
            let texts = |span: SpanView| span.text;
            assert(spans.deep_view().take(i + 1).map_values(texts) =~= done.map_values(texts).push(
                spans[i as int]@.text,
            ));
            done.map_values(texts).lemma_flatten_push(spans[i as int]@.text);
        }
        text.append(spans[i].text.as_str());
        i += 1;
    }
    assert(spans.deep_view().take(i as int) =~= spans.deep_view());
    text
}

/// The styled lines of an outcome, by their content.
pub open spec fn outcome_view(styled: Result<Vec<Vec<Span>>, HighlightError>) -> Result<
    Seq<Seq<SpanView>>,
    HighlightError,
> {
    match styled {
        Ok(lines) => Ok(lines.deep_view()),
        Err(fault) => Err(fault),
    }
}

/// The lines styled so far, followed by the outcome for the rest.
pub open spec fn followed_by(
    done: Seq<Seq<SpanView>>,
    rest: Result<Seq<Seq<SpanView>>, HighlightError>,
) -> Result<Seq<Seq<SpanView>>, HighlightError> {
    match rest {
        Ok(more) => Ok(done + more),
        Err(fault) => Err(fault),
    }
}

/// The outcome of handing `raw`, line after line, to a highlighter in the
/// state `lines`. The first line on which the highlighter fails ends it with
/// `Rejected`, the first whose spans do not add up to the line with
/// `Garbled`; otherwise it is the spans of every line.
pub open spec fn styled_from(
    lines: HighlightLines<'_>,
    syntaxes: SyntaxSet,
    raw: Seq<Seq<char>>,
) -> Result<Seq<Seq<SpanView>>, HighlightError>
    decreases raw.len(),
{
    if raw.len() == 0 {
        Ok(Seq::empty())
    } else {
        match answer(lines, raw[0], syntaxes) {
            None => Err(HighlightError::Rejected),
            Some(spans) => if plain_text(spans) == raw[0] {
                followed_by(
                    seq![spans],
                    styled_from(advanced(lines, raw[0], syntaxes), syntaxes, raw.drop_first()),
                )
            } else {
                Err(HighlightError::Garbled)
            },
        }
    }
}

/// The outcome of styling the lines `raw` with the grammar for `extension`
/// and the theme called `theme`: `Unavailable` exactly when the grammar or
/// the theme is missing, else what a fresh highlighter makes of the lines.
pub open spec fn styling(
    syntaxes: SyntaxSet,
    themes: ThemeSet,
    extension: Seq<char>,
    theme: Seq<char>,
    raw: Seq<Seq<char>>,
) -> Result<Seq<Seq<SpanView>>, HighlightError> {
    match fresh(syntaxes, themes, extension, theme) {
        None => Err(HighlightError::Unavailable),
        Some(lines) => styled_from(lines, syntaxes, raw),
    }
}

/// Whether `outcome` is what the bundled grammars and themes make of `text`,
/// cut into its lines.
pub open spec fn is_styling(
    outcome: Result<Seq<Seq<SpanView>>, HighlightError>,
    text: Seq<char>,
    extension: Seq<char>,
    theme: Seq<char>,
) -> bool {
    exists|syntaxes: SyntaxSet, themes: ThemeSet, raw: Seq<Seq<char>>|
        bundled(syntaxes) && bundled_themes(themes) && is_line_split(raw, text) && outcome
            == #[trigger] styling(syntaxes, themes, extension, theme, raw)
}

/// The text to print for an outcome: the styled lines rendered, or the
/// answer as it came where there are none.
pub open spec fn shown_for(
    response: Seq<char>,
    outcome: Result<Seq<Seq<SpanView>>, HighlightError>,
) -> Seq<char> {
    match outcome {
        Ok(lines) => rendered(lines),
        Err(_) => response,
    }
}

/// Accepts the spans that the highlighter gave for `line` if their text,
/// put together, is that line, and refuses them otherwise.
pub fn checked_line(line: &str, spans: Vec<Span>) -> (checked: Result<Vec<Span>, HighlightError>)
    ensures
        checked == if plain_text(spans.deep_view()) == line@ {
            Ok::<Vec<Span>, HighlightError>(spans)
        } else {
            Err::<Vec<Span>, HighlightError>(HighlightError::Garbled)
        },
{
    let covered = unstyled(&spans);
    if same_text(covered.as_str(), line) {
        Ok(spans)
    } else {
        Err(HighlightError::Garbled)
    }
}

/// Styles `text` line by line, with the bundled grammar for files that end
/// in `extension` and the bundled colour theme called `theme`. Each line is
/// handed to the highlighter with its line terminator, in order, and the
/// spans that come back are accepted only if their text, put together, is
/// that line: so a result never adds, drops or changes a character.
///
/// The outcome is [`styling`] of the lines: it fails only where the grammar
/// or the theme is missing, where the highlighter fails on a line, or where
/// its spans do not add up. An empty text needs no highlighter and always
/// succeeds.
pub fn highlight_lines_as(text: &str, extension: &str, theme: &str) -> (styled: Result<
    Vec<Vec<Span>>,
    HighlightError,
>)
    ensures
        text@.len() == 0 ==> styled is Ok && styled->Ok_0.len() == 0,
        text@.len() > 0 ==> is_styling(outcome_view(styled), text@, extension@, theme@),
        styled matches Ok(lines) ==> is_line_split(line_texts(lines.deep_view()), text@),
{
    let mut styled: Vec<Vec<Span>> = Vec::new();
    if text.is_empty() {
        assert(line_texts(styled.deep_view()) =~= Seq::<Seq<char>>::empty());
        assert(Seq::<Seq<char>>::empty().flatten() =~= text@);
        return Ok(styled);
    }
    let raw = split_lines(text);
    let syntaxes = default_syntaxes();
    let themes = default_themes();
    let mut highlighter = match line_highlighter(&syntaxes, &themes, extension, theme) {
        Some(highlighter) => highlighter,
        None => {
            assert(styling(syntaxes, themes, extension@, theme@, raw.deep_view()) == Err::<
                Seq<Seq<SpanView>>,
                HighlightError,
            >(HighlightError::Unavailable));
            return Err(HighlightError::Unavailable);
        },
    };
    let ghost whole = styling(syntaxes, themes, extension@, theme@, raw.deep_view());
    assert(styled.deep_view() =~= Seq::<Seq<SpanView>>::empty());
    assert(raw.deep_view().skip(0) =~= raw.deep_view());
    assert(followed_by(styled.deep_view(), whole) == whole) by {
        if whole is Ok {
            assert(styled.deep_view() + whole->Ok_0 =~= whole->Ok_0);
        }
    }
    let mut i: usize = 0;
    while i < raw.len()
        invariant
            text@.len() > 0,
            bundled(syntaxes),
            bundled_themes(themes),
            is_line_split(raw.deep_view(), text@),
            whole == styling(syntaxes, themes, extension@, theme@, raw.deep_view()),
            whole == followed_by(
                styled.deep_view(),
                styled_from(highlighter, syntaxes, raw.deep_view().skip(i as int)),
            ),
            built_with(highlighter, syntaxes),
            i <= raw.len(),
            styled.len() == i,
            forall|k: int|
                0 <= k < i ==> plain_text(#[trigger] styled.deep_view()[k]) == raw.deep_view()[k],
        decreases raw.len() - i,
    {
        let line = raw[i].as_str();
        let ghost rest = raw.deep_view().skip(i as int);
        let ghost state = highlighter;
        assert(rest[0] == line@);
        assert(rest.drop_first() =~= raw.deep_view().skip(i + 1));
        let spans = match highlight_line(&mut highlighter, line, &syntaxes) {
            Ok(spans) => spans,
            Err(_) => {
                return Err(HighlightError::Rejected);
            },
        };
        let spans = match checked_line(line, spans) {
            Ok(spans) => spans,
            Err(fault) => {
                return Err(fault);
            },
        };
        let ghost before = styled.deep_view();
        let ghost added = spans.deep_view();
        styled.push(spans);
        assert(styled.deep_view() =~= before.push(added));
        proof {
            let later = styled_from(highlighter, syntaxes, raw.deep_view().skip(i + 1));
            assert(styled_from(state, syntaxes, rest) == followed_by(seq![added], later));
            if later is Ok {
                assert(before + (seq![added] + later->Ok_0) =~= before.push(added) + later->Ok_0);
            }
        }
        i += 1;
    }
    assert(line_texts(styled.deep_view()) =~= raw.deep_view());
    assert(styled.deep_view() + Seq::<Seq<SpanView>>::empty() =~= styled.deep_view());
    Ok(styled)
}

/// Styles `text` line by line as C code in the dark theme
/// `base16-ocean.dark`. See [`highlight_lines_as`].
pub fn highlight_lines(text: &str) -> (styled: Result<Vec<Vec<Span>>, HighlightError>)
    ensures
        text@.len() == 0 ==> styled is Ok && styled->Ok_0.len() == 0,
        text@.len() > 0 ==> is_styling(
            outcome_view(styled),
            text@,
            "c"@,
            "base16-ocean.dark"@,
        ),
        styled matches Ok(lines) ==> is_line_split(line_texts(lines.deep_view()), text@),
{
    highlight_lines_as(text, "c", "base16-ocean.dark")
}

/// Renders styled lines for a terminal: every span is preceded by the escape
/// sequences that select its background and its foreground colour.
pub fn render(lines: &Vec<Vec<Span>>) -> (out: String)
    ensures
        out@ == rendered(lines.deep_view()),
{
    let mut out = String::new();
    let mut i: usize = 0;
    while i < lines.len()
        invariant
            i <= lines.len(),
            out@ == rendered(lines.deep_view().take(i as int)),
        decreases lines.len() - i,
    {
        let line = terminal_escaped(&lines[i], true);
        proof {
            let done = lines.deep_view().take(i as int);
            let each = |line: Seq<SpanView>| escaped(line, true);
            assert(lines.deep_view().take(i + 1).map_values(each) =~= done.map_values(each).push(
                line@,
            ));
            done.map_values(each).lemma_flatten_push(line@);
        }
        out.append(line.as_str());
        i += 1;
    }
    assert(lines.deep_view().take(i as int) =~= lines.deep_view());
    out
}

/// Whether `shown` is `text` highlighted: the rendering of some styled lines
/// whose unstyled text is `text`, line by line.
pub open spec fn is_highlighted(shown: Seq<char>, text: Seq<char>) -> bool {
    exists|lines: Seq<Seq<SpanView>>|
        is_line_split(#[trigger] line_texts(lines), text) && shown == rendered(lines)
}

/// The text to print once the highlighter has answered: its lines rendered
/// for a terminal, or, where it could not do its work, the answer as it
/// came. A decompilation is never lost over its colours.
pub fn rendered_or_plain(response: &str, styled: &Result<Vec<Vec<Span>>, HighlightError>) -> (shown:
    String)
    ensures
        shown@ == shown_for(response@, outcome_view(*styled)),
{
    match styled {
        Ok(lines) => render(lines),
        Err(_) => String::from_str(response),
    }
}

/// The text to print for a backend's answer. Without highlighting it is the
/// answer as it came. With highlighting it is the answer styled as C code in
/// the theme `base16-ocean.dark` and rendered for a terminal; only where the
/// styling fails is it the answer as it came. Either way a terminal shows
/// the answer, character by character, unless the answer brings escape
/// characters of its own.
pub fn present(response: &str, highlight: bool) -> (shown: String)
    ensures
        !highlight ==> shown@ == response@,
        response@.len() == 0 ==> shown@ == response@,
        highlight && response@.len() > 0 ==> exists|
            outcome: Result<Seq<Seq<SpanView>>, HighlightError>,
        |
            #[trigger] is_styling(outcome, response@, "c"@, "base16-ocean.dark"@) && shown@
                == shown_for(response@, outcome),
        shown@ == response@ || is_highlighted(shown@, response@),
        escape_free(response@) ==> visible(shown@) == response@,
{
    if !highlight {
        proof {
            if escape_free(response@) {
                plain_text_shows_as_it_is(response@);
            }
        }
        return String::from_str(response);
    }
    let styled = highlight_lines(response);
    proof {
        if escape_free(response@) {
            plain_text_shows_as_it_is(response@);
            if styled is Ok {
                let lines = styled->Ok_0.deep_view();
                assert(whole_text(lines) == response@);
                escape_free_text_has_escape_free_spans(lines);
                rendering_shows_the_text(lines);
            }
        }
        if styled is Ok {
            assert(is_line_split(line_texts(styled->Ok_0.deep_view()), response@));
        }
        if response@.len() == 0 {
            assert(rendered(styled->Ok_0.deep_view()) =~= response@);
        } else {
            assert(is_styling(outcome_view(styled), response@, "c"@, "base16-ocean.dark"@));
        }
    }
    rendered_or_plain(response, &styled)
}

} // verus!
