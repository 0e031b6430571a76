//! What holds of every token sequence the lexer produces.
use vstd::prelude::*;

use crate::lexer::lexed_tokens;
use crate::lexer::rules::{
    char_span, lemma_skip_class_bounds, lemma_step_progress, lex_from, lex_step, skip_class, CharClass, Outcome,
};
use crate::text::{byte_len, byte_offset, lemma_byte_offset_mono, lemma_byte_offset_step};
use crate::parser::grammar::{aligned, is_literal_kind, parsable};
use crate::token::{Token, TokenKind};

verus! {

/// Each token of `toks` ends no later than the next one starts.
pub open spec fn spans_in_order(toks: Seq<Token>) -> bool {
    forall|a: int, b: int|
        0 <= a < b < toks.len() ==> #[trigger] toks[a].span.start + toks[a].span.len
            <= #[trigger] toks[b].span.start
}

/// Each token of `toks` starts and ends at character boundaries of `cs`.
pub open spec fn spans_on_boundaries(toks: Seq<Token>, cs: Seq<char>) -> bool {
    forall|a: int|
        0 <= a < toks.len() ==> exists|i: int, j: int|
            0 <= i <= j <= cs.len() && byte_offset(cs, i) == (#[trigger] toks[a]).span.start
                && byte_offset(cs, j) == toks[a].span.start + toks[a].span.len
}

/// Each token of `toks` covers at least one byte of the text, all within the
/// first `n` bytes, starting at or after byte `from`.
pub open spec fn spans_within(toks: Seq<Token>, from: int, n: int) -> bool {
    forall|a: int|
        0 <= a < toks.len() ==> {
            &&& from <= #[trigger] toks[a].span.start
            &&& toks[a].span.len > 0
            &&& toks[a].span.start + toks[a].span.len <= n
        }
}

proof fn lemma_lex_from_spans(cs: Seq<char>, i: int)
    requires
        0 <= i <= cs.len(),
        byte_len(cs) <= usize::MAX,
    ensures
        spans_in_order(lex_from(cs, i).0),
        spans_within(lex_from(cs, i).0, byte_offset(cs, i) as int, byte_len(cs) as int),
        spans_on_boundaries(lex_from(cs, i).0, cs),
        forall|a: int|
            0 <= a < lex_from(cs, i).0.len() ==> #[trigger] lex_from(cs, i).0[a].kind
                != TokenKind::Eof,
    decreases cs.len() - i,
{
    if i < cs.len() {
        lemma_step_progress(cs, i);
        let st = lex_step(cs, i);
        lemma_lex_from_spans(cs, st.next);
        lemma_byte_offset_step(cs, i);
        lemma_byte_offset_mono(cs, i + 1, st.next);
        lemma_byte_offset_mono(cs, st.next, cs.len() as int);
        lemma_byte_offset_mono(cs, i, cs.len() as int);
        assert(cs.take(cs.len() as int) =~= cs);
        let rest = lex_from(cs, st.next).0;
        match st.outcome {
            Outcome::Emit(kind) => {
                let t = Token { kind, span: char_span(cs, i, st.next) };
                let toks = seq![t] + rest;
                assert(toks == lex_from(cs, i).0);
                assert forall|a: int, b: int| 0 <= a < b < toks.len() implies #[trigger] toks[a].span.start
                    + toks[a].span.len <= #[trigger] toks[b].span.start by {
                    if a > 0 {
                        assert(toks[a] == rest[a - 1]);
                        assert(toks[b] == rest[b - 1]);
                    } else {
                        assert(toks[b] == rest[b - 1]);
                    }
                }
                assert forall|a: int| 0 <= a < toks.len() implies #[trigger] toks[a].kind
                    != TokenKind::Eof by {
                    if a > 0 {
                        assert(toks[a] == rest[a - 1]);
                    }
                }
                assert forall|a: int| 0 <= a < toks.len() implies exists|x: int, y: int|
                    0 <= x <= y <= cs.len() && byte_offset(cs, x) == (#[trigger] toks[a]).span.start
                        && byte_offset(cs, y) == toks[a].span.start + toks[a].span.len by {
                    if a > 0 {
                        assert(toks[a] == rest[a - 1]);
                    } else {
                        assert(byte_offset(cs, i) == t.span.start);
                        assert(byte_offset(cs, st.next) == t.span.start + t.span.len);
                    }
                }
                assert forall|a: int| 0 <= a < toks.len() implies {
                    &&& byte_offset(cs, i) <= #[trigger] toks[a].span.start
                    &&& toks[a].span.len > 0
                    &&& toks[a].span.start + toks[a].span.len <= byte_len(cs)
                } by {
                    if a > 0 {
                        assert(toks[a] == rest[a - 1]);
                    }
                }
            },
            _ => {},
        }
    }
}

/// The tokens of a text are in order and do not overlap; each covers at
/// least one byte within the text, except the end-of-file token, which is
/// the last token, the only one of its kind, and starts at the end of the
/// text.
pub proof fn lemma_lexed_tokens_shape(cs: Seq<char>)
    requires
        byte_len(cs) <= usize::MAX,
    ensures
        ({
            let toks = lexed_tokens(cs);
            &&& toks.len() >= 1
            &&& toks.last().kind == TokenKind::Eof
            &&& toks.last().span.start == byte_len(cs)
            &&& toks.last().span.len == 1
            &&& spans_in_order(toks)
            &&& spans_within(toks.drop_last(), 0, byte_len(cs) as int)
            &&& spans_on_boundaries(toks.drop_last(), cs)
            &&& forall|a: int| 0 <= a < toks.len() - 1 ==> #[trigger] toks[a].kind != TokenKind::Eof
        }),
{
    lemma_lex_from_spans(cs, 0);
    let body = lex_from(cs, 0).0;
    let toks = lexed_tokens(cs);
    assert(toks.drop_last() =~= body);
    assert forall|a: int, b: int| 0 <= a < b < toks.len() implies #[trigger] toks[a].span.start
        + toks[a].span.len <= #[trigger] toks[b].span.start by {
        assert(toks[a] == body[a]);
        if b < toks.len() - 1 {
            assert(toks[b] == body[b]);
        }
    }
    assert forall|a: int| 0 <= a < toks.len() - 1 implies #[trigger] toks[a].kind != TokenKind::Eof by {
        assert(toks[a] == body[a]);
    }
}

/// The tokens of a text whose byte length is below `usize::MAX` can be
/// handed to the parser: every span fits and every literal token lies on
/// character boundaries.
pub proof fn lemma_lexed_tokens_parsable(cs: Seq<char>)
    requires
        byte_len(cs) < usize::MAX,
    ensures
        parsable(lexed_tokens(cs), cs),
{
    lemma_lexed_tokens_shape(cs);
    let toks = lexed_tokens(cs);
    assert forall|k: int| 0 <= k < toks.len() implies (#[trigger] toks[k]).span.fits() by {
        if k < toks.len() - 1 {
            assert(toks[k] == toks.drop_last()[k]);
        }
    }
    assert forall|k: int| 0 <= k < toks.len() && is_literal_kind(#[trigger] toks[k].kind) implies aligned(
        cs,
        toks[k].span,
    ) by {
        if k < toks.len() - 1 {
            assert(toks[k] == toks.drop_last()[k]);
        }
    }
}

/// Whether `c` is an ASCII letter or `_`.
pub open spec fn ascii_letter_or_underscore(c: char) -> bool {
    ||| 0x41 <= (c as u32) <= 0x5A
    ||| 0x61 <= (c as u32) <= 0x7A
    ||| c == '_'
}

/// A word of the text: an ASCII letter or `_`, then ASCII letters, ASCII
/// digits or `_`.
pub open spec fn is_ascii_word(cs: Seq<char>) -> bool {
    &&& cs.len() > 0
    &&& ascii_letter_or_underscore(cs[0])
    &&& forall|k: int|
        1 <= k < cs.len() ==> ascii_letter_or_underscore(#[trigger] cs[k]) || 0x30 <= (cs[k] as u32) <= 0x39
}

/// A word is lexed whole: a text that is one word (digits after the first
/// character included) gives exactly one token before the end, spanning the
/// whole word, and no error.
pub proof fn law_word_is_one_token(cs: Seq<char>)
    requires
        is_ascii_word(cs),
    ensures
        lexed_tokens(cs).len() == 2,
        lexed_tokens(cs)[0].span == char_span(cs, 0, cs.len() as int),
        lexed_tokens(cs)[0].kind != TokenKind::Int,
        lex_from(cs, 0).1.len() == 0,
{
    lemma_skip_class_bounds(cs, 1, CharClass::IdentContinue);
    let j = skip_class(cs, 1, CharClass::IdentContinue);
    if j < cs.len() {
        assert(cs[j] == cs[j]);
    }
    assert(j == cs.len());
    let st = lex_step(cs, 0);
    assert(st.next == cs.len());
    assert(lex_from(cs, cs.len() as int).0.len() == 0);
    assert(lex_from(cs, cs.len() as int).1.len() == 0);
}

} // verus!
