//! What a terminal shows of a text with colour escape sequences, and the
//! proof that a rendering shows exactly the text that was styled.

use vstd::prelude::*;

use crate::spans::{
    colour_code, decimal, escaped, escaped_span, line_texts, plain_text, rendered,
    shown_foreground, whole_text, SpanView,
};

verus! {

/// What shows of `text` when reading starts inside an escape sequence
/// (`inside`) or outside of one. An escape sequence begins with the escape
/// character and ends with the next `m`; nothing of it shows.
pub open spec fn visible_from(inside: bool, text: Seq<char>) -> Seq<char>
    decreases text.len(),
{
    if text.len() == 0 {
        Seq::empty()
    } else if inside {
        visible_from(text[0] != 'm', text.drop_first())
    } else if text[0] == '\u{1b}' {
        visible_from(true, text.drop_first())
    } else {
        seq![text[0]] + visible_from(false, text.drop_first())
    }
}

/// What a terminal shows of `text`: its characters without the escape
/// sequences.
pub open spec fn visible(text: Seq<char>) -> Seq<char> {
    visible_from(false, text)
}

/// Whether a text is free of the escape character.
pub open spec fn escape_free(text: Seq<char>) -> bool {
    forall|i: int| 0 <= i < text.len() ==> text[i] != '\u{1b}'
}

/// Whether a text is free of the letter that ends a colour sequence.
spec fn unended(text: Seq<char>) -> bool {
    forall|i: int| 0 <= i < text.len() ==> text[i] != 'm'
}

/// A text without escape character shows as it is.
proof fn lemma_text_shows(text: Seq<char>, rest: Seq<char>)
    requires
        escape_free(text),
    ensures
        visible_from(false, text + rest) == text + visible_from(false, rest),
    decreases text.len(),
{
    if text.len() == 0 {
        assert(text + rest =~= rest);
        assert(text + visible_from(false, rest) =~= visible_from(false, rest));
    } else {
        assert((text + rest).drop_first() =~= text.drop_first() + rest);
        assert((text + rest)[0] == text[0]);
        assert(escape_free(text.drop_first())) by {
            assert forall|i: int| 0 <= i < text.drop_first().len() implies text.drop_first()[i]
                != '\u{1b}' by {
                assert(text.drop_first()[i] == text[i + 1]);
            }
        }
        lemma_text_shows(text.drop_first(), rest);
        assert(seq![text[0]] + (text.drop_first() + visible_from(false, rest)) =~= text
            + visible_from(false, rest));
    }
}

/// Inside an escape sequence nothing shows up to and including the `m`
/// that ends it.
proof fn lemma_sequence_hides(body: Seq<char>, rest: Seq<char>)
    requires
        unended(body),
    ensures
        visible_from(true, body + seq!['m'] + rest) == visible_from(false, rest),
    decreases body.len(),
{
    let all = body + seq!['m'] + rest;
    if body.len() == 0 {
        assert(all.drop_first() =~= rest);
        assert(all[0] == 'm');
    } else {
        assert(all.drop_first() =~= body.drop_first() + seq!['m'] + rest);
        assert(all[0] == body[0]);
        assert(unended(body.drop_first())) by {
            assert forall|i: int| 0 <= i < body.drop_first().len() implies body.drop_first()[i]
                != 'm' by {
                assert(body.drop_first()[i] == body[i + 1]);
            }
        }
        lemma_sequence_hides(body.drop_first(), rest);
    }
}

/// A number in decimal holds digits only.
proof fn lemma_decimal_holds_digits(value: nat)
    ensures
        unended(decimal(value)),
    decreases value,
{
    if value < 10 {
    } else {
        lemma_decimal_holds_digits(value / 10);
    }
}

/// A colour sequence does not show.
proof fn lemma_colour_code_hides(background: bool, r: nat, g: nat, b: nat, rest: Seq<char>)
    ensures
        visible_from(false, colour_code(background, r, g, b) + rest) == visible_from(false, rest),
{
    let head = seq!['[', if background { '4' } else { '3' }, '8', ';', '2', ';'];
    let body = head + decimal(r) + seq![';'] + decimal(g) + seq![';'] + decimal(b);
    lemma_decimal_holds_digits(r);
    lemma_decimal_holds_digits(g);
    lemma_decimal_holds_digits(b);
    assert(unended(body));
    let all = colour_code(background, r, g, b) + rest;
    assert(all[0] == '\u{1b}');
    assert(all.drop_first() =~= body + seq!['m'] + rest);
    lemma_sequence_hides(body, rest);
}

/// Whether no span holds the escape character in its text.
pub open spec fn spans_escape_free(spans: Seq<SpanView>) -> bool {
    forall|i: int| 0 <= i < spans.len() ==> escape_free(#[trigger] spans[i].text)
}

/// Whether no span of any line holds the escape character in its text.
pub open spec fn lines_escape_free(lines: Seq<Seq<SpanView>>) -> bool {
    forall|i: int| 0 <= i < lines.len() ==> spans_escape_free(#[trigger] lines[i])
}

/// Of a rendered span only its text shows.
proof fn lemma_span_shows_its_text(span: SpanView, with_background: bool, rest: Seq<char>)
    requires
        escape_free(span.text),
    ensures
        visible_from(false, escaped_span(span, with_background) + rest) == span.text
            + visible_from(false, rest),
{
    let bg = span.background;
    let fg = shown_foreground(span);
    let back = colour_code(true, bg.r as nat, bg.g as nat, bg.b as nat);
    let fore = colour_code(false, fg.0, fg.1, fg.2);
    lemma_text_shows(span.text, rest);
    lemma_colour_code_hides(false, fg.0, fg.1, fg.2, span.text + rest);
    if with_background {
        lemma_colour_code_hides(true, bg.r as nat, bg.g as nat, bg.b as nat, fore + (span.text + rest));
        assert(escaped_span(span, with_background) + rest =~= back + (fore + (span.text + rest)));
    } else {
        assert(escaped_span(span, with_background) + rest =~= fore + (span.text + rest));
    }
}

/// Of rendered spans only their text shows.
proof fn lemma_spans_show_their_text(spans: Seq<SpanView>, with_background: bool, rest: Seq<char>)
    requires
        spans_escape_free(spans),
    ensures
        visible_from(false, escaped(spans, with_background) + rest) == plain_text(spans)
            + visible_from(false, rest),
    decreases spans.len(),
{
    let each = |span: SpanView| escaped_span(span, with_background);
    let texts = |span: SpanView| span.text;
    if spans.len() == 0 {
        assert(escaped(spans, with_background) + rest =~= rest);
        assert(plain_text(spans) + visible_from(false, rest) =~= visible_from(false, rest));
    } else {
        let tail = spans.drop_first();
        assert(spans.map_values(each).drop_first() =~= tail.map_values(each));
        assert(spans.map_values(texts).drop_first() =~= tail.map_values(texts));
        assert(escaped(spans, with_background) == each(spans[0]) + escaped(tail, with_background));
        assert(plain_text(spans) == spans[0].text + plain_text(tail));
        assert(spans_escape_free(tail)) by {
            assert forall|i: int| 0 <= i < tail.len() implies escape_free(
                #[trigger] tail[i].text,
            ) by {
                assert(tail[i] == spans[i + 1]);
            }
        }
        lemma_spans_show_their_text(tail, with_background, rest);
        lemma_span_shows_its_text(
            spans[0],
            with_background,
            escaped(tail, with_background) + rest,
        );
        assert(escaped(spans, with_background) + rest =~= each(spans[0]) + (escaped(
            tail,
            with_background,
        ) + rest));
        assert(spans[0].text + (plain_text(tail) + visible_from(false, rest)) =~= plain_text(spans)
            + visible_from(false, rest));
    }
}

/// Rendering shows the text. What a terminal shows of rendered lines is
/// their unstyled text, all of it and in order, whatever their colours are,
/// as long as the text itself holds no escape character.
pub proof fn rendering_shows_the_text(lines: Seq<Seq<SpanView>>)
    requires
        lines_escape_free(lines),
    ensures
        visible(rendered(lines)) == whole_text(lines),
    decreases lines.len(),
{
    let each = |line: Seq<SpanView>| escaped(line, true);
    let texts = |line: Seq<SpanView>| plain_text(line);
    if lines.len() == 0 {
        assert(rendered(lines) =~= Seq::<char>::empty());
        assert(whole_text(lines) =~= Seq::<char>::empty());
    } else {
        let tail = lines.drop_first();
        assert(lines.map_values(each).drop_first() =~= tail.map_values(each));
        assert(lines.map_values(texts).drop_first() =~= tail.map_values(texts));
        assert(rendered(lines) == escaped(lines[0], true) + rendered(tail));
        assert(whole_text(lines) == plain_text(lines[0]) + whole_text(tail));
        assert(lines_escape_free(tail)) by {
            assert forall|i: int| 0 <= i < tail.len() implies spans_escape_free(
                #[trigger] tail[i],
            ) by {
                assert(tail[i] == lines[i + 1]);
            }
        }
        rendering_shows_the_text(tail);
        lemma_spans_show_their_text(lines[0], true, rendered(tail));
    }
}

/// The parts of a text without escape character hold none either.
proof fn lemma_parts_escape_free(parts: Seq<Seq<char>>)
    requires
        escape_free(parts.flatten()),
    ensures
        forall|i: int| 0 <= i < parts.len() ==> escape_free(#[trigger] parts[i]),
    decreases parts.len(),
{
    if parts.len() > 0 {
        let whole = parts.flatten();
        let tail = parts.drop_first();
        assert(whole == parts.first() + tail.flatten());
        assert(escape_free(parts[0])) by {
            assert forall|j: int| 0 <= j < parts[0].len() implies parts[0][j] != '\u{1b}' by {
                assert(whole[j] == parts[0][j]);
            }
        }
        assert(escape_free(tail.flatten())) by {
            assert forall|j: int| 0 <= j < tail.flatten().len() implies tail.flatten()[j]
                != '\u{1b}' by {
                assert(whole[parts[0].len() + j] == tail.flatten()[j]);
            }
        }
        lemma_parts_escape_free(tail);
        assert forall|i: int| 0 <= i < parts.len() implies escape_free(#[trigger] parts[i]) by {
            if i > 0 {
                assert(parts[i] == tail[i - 1]);
            }
        }
    }
}

/// Styled lines whose whole text holds no escape character hold none in any
/// span.
pub proof fn escape_free_text_has_escape_free_spans(lines: Seq<Seq<SpanView>>)
    requires
        escape_free(whole_text(lines)),
    ensures
        lines_escape_free(lines),
{
    let line_parts = line_texts(lines);
    lemma_parts_escape_free(line_parts);
    assert forall|i: int| 0 <= i < lines.len() implies spans_escape_free(#[trigger] lines[i]) by {
        let span_parts = lines[i].map_values(|span: SpanView| span.text);
        assert(line_parts[i] == span_parts.flatten());
        lemma_parts_escape_free(span_parts);
        assert forall|j: int| 0 <= j < lines[i].len() implies escape_free(
            #[trigger] lines[i][j].text,
        ) by {
            assert(span_parts[j] == lines[i][j].text);
        }
    }
}

/// A text without escape character shows as it is.
pub proof fn plain_text_shows_as_it_is(text: Seq<char>)
    requires
        escape_free(text),
    ensures
        visible(text) == text,
{
    lemma_text_shows(text, Seq::empty());
    assert(text + Seq::<char>::empty() =~= text);
}

} // verus!
