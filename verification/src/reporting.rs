//! What a rendered diagnostic shows of its source: the line of its primary
//! span, where the span starts on it, and how long its underline is.
use vstd::prelude::*;

use crate::lexer::rules::{is_whitespace, is_whitespace_char};
use crate::source::{is_line_of, SourceFile};
use crate::span::Span;
use crate::text::{byte_len, chars_of, lemma_byte_offset_step, string_from_chars, utf8_width};

verus! {

/// The characters of `cs` whose UTF-8 encoding starts at a byte offset in
/// `[lo, hi)`.
pub open spec fn chars_between(cs: Seq<char>, lo: int, hi: int) -> Seq<char>
    decreases cs.len(),
{
    if cs.len() == 0 {
        Seq::empty()
    } else {
        let prev = chars_between(cs.drop_last(), lo, hi);
        let off = byte_len(cs.drop_last()) as int;
        if lo <= off < hi {
            prev.push(cs.last())
        } else {
            prev
        }
    }
}

/// `s` without its trailing whitespace.
pub open spec fn trim_end_spec(s: Seq<char>) -> Seq<char>
    decreases s.len(),
{
    if s.len() > 0 && is_whitespace(s.last()) {
        trim_end_spec(s.drop_last())
    } else {
        s
    }
}

/// How a diagnostic's primary span is shown: the one-based line and column
/// where it starts, the text of that line without trailing whitespace, and
/// the length of the underline.
#[derive(Debug)]
pub struct SnippetLayout {
    pub line_number: usize,
    pub column: usize,
    pub line_text: String,
    pub marker_len: usize,
}

/// The layout of the snippet that shows `span` in `file`: the line holding
/// the span's first byte, and an underline as long as the span, at least one
/// character.
pub fn snippet_layout(file: &SourceFile, span: Span) -> (s: SnippetLayout)
    requires
        span.fits(),
        span.start < usize::MAX,
        byte_len(file.text_spec()) < usize::MAX,
    ensures
        1 <= s.line_number,
        1 <= s.column,
        is_line_of(file.line_starts(), span.start as int, s.line_number - 1),
        s.column - 1 == span.start - file.line_starts()[s.line_number - 1],
        ({
            let l = s.line_number - 1;
            let starts = file.line_starts();
            let hi = if l + 1 < starts.len() {
                starts[l + 1] as int
            } else {
                byte_len(file.text_spec()) as int
            };
            s.line_text@ == trim_end_spec(chars_between(file.text_spec(), starts[l] as int, hi))
        }),
        s.marker_len == (if span.len == 0 {
            1
        } else {
            span.len
        }),
{
    let (line, col) = file.line_col(span.start);
    let range = file.line_range(line).unwrap();
    let lo = range.start;
    let hi = range.end;
    let chars = chars_of(file.text());
    let mut kept: Vec<char> = Vec::new();
    let mut i: usize = 0;
    let mut pos: usize = 0;
    proof {
        assert(chars@.take(0) =~= Seq::<char>::empty());
    }
    while i < chars.len()
        invariant
            chars@ == file.text_spec(),
            i <= chars@.len(),
            byte_len(chars@) < usize::MAX,
            pos == byte_len(chars@.take(i as int)),
            kept@ == chars_between(chars@.take(i as int), lo as int, hi as int),
        decreases chars@.len() - i,
    {
        let c = chars[i];
        proof {
            lemma_byte_offset_step(chars@, i as int);
            crate::text::lemma_byte_offset_mono(chars@, i + 1, chars@.len() as int);
            assert(chars@.take(chars@.len() as int) =~= chars@);
            assert(chars@.take(i + 1).drop_last() =~= chars@.take(i as int));
            assert(chars@.take(i + 1).last() == c);
        }
        if lo <= pos && pos < hi {
            kept.push(c);
        }
        pos = pos + utf8_width(c);
        i = i + 1;
    }
    proof {
        assert(chars@.take(i as int) =~= chars@);
    }
    let mut n = kept.len();
    proof {
        assert(kept@.take(n as int) =~= kept@);
    }
    while n > 0 && is_whitespace_char(kept[n - 1])
        invariant
            n <= kept@.len(),
            trim_end_spec(kept@) == trim_end_spec(kept@.take(n as int)),
        decreases n,
    {
        proof {
            assert(kept@.take(n as int).drop_last() =~= kept@.take(n - 1));
        }
        n = n - 1;
    }
    proof {
        let t = kept@.take(n as int);
        if n > 0 {
            assert(t.last() == kept@[n - 1]);
        }
        assert(trim_end_spec(t) == t);
    }
    kept.truncate(n);
    let line_text = string_from_chars(kept.as_slice());
    let marker_len = if span.len == 0 {
        1
    } else {
        span.len
    };
    SnippetLayout { line_number: line + 1, column: col + 1, line_text, marker_len }
}

} // verus!
