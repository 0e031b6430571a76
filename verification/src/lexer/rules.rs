//! The lexical grammar: which characters make which token.
use vstd::prelude::*;

use crate::lexer::error::LexError;
use crate::span::Span;
use crate::text::byte_offset;
use crate::token::{Token, TokenKind};

verus! {

/// Whether `c` has the Unicode `White_Space` property.
pub open spec fn is_whitespace(c: char) -> bool {
    let u = c as u32;
    ||| 0x9 <= u <= 0xD
    ||| u == 0x20
    ||| u == 0x85
    ||| u == 0xA0
    ||| u == 0x1680
    ||| 0x2000 <= u <= 0x200A
    ||| u == 0x2028
    ||| u == 0x2029
    ||| u == 0x202F
    ||| u == 0x205F
    ||| u == 0x3000
}

/// Whether `c` is one of the ASCII digits `0` to `9`.
pub open spec fn is_digit(c: char) -> bool {
    0x30 <= (c as u32) <= 0x39
}

/// Whether `c` is an ASCII letter.
pub open spec fn is_alpha(c: char) -> bool {
    ||| 0x41 <= (c as u32) <= 0x5A
    ||| 0x61 <= (c as u32) <= 0x7A
}

/// Whether `c` may start an identifier: an ASCII letter or `_`.
pub open spec fn is_ident_start_spec(c: char) -> bool {
    is_alpha(c) || c == '_'
}

/// Whether `c` may continue an identifier: an ASCII letter, a digit or `_`.
pub open spec fn is_ident_continue_spec(c: char) -> bool {
    is_ident_start_spec(c) || is_digit(c)
}

/// The classes of characters that the lexer skips over in runs.
pub enum CharClass {
    Whitespace,
    IdentContinue,
    Digit,
    NotNewline,
}

/// Whether `c` belongs to `class`.
pub open spec fn in_class(class: CharClass, c: char) -> bool {
    match class {
        CharClass::Whitespace => is_whitespace(c),
        CharClass::IdentContinue => is_ident_continue_spec(c),
        CharClass::Digit => is_digit(c),
        CharClass::NotNewline => c != '\n',
    }
}

/// The index of the first character at or after `i` that is not in `class`
/// (or the length of `cs` if there is none).
pub open spec fn skip_class(cs: Seq<char>, i: int, class: CharClass) -> int
    decreases cs.len() - i,
{
    if 0 <= i < cs.len() && in_class(class, cs[i]) {
        skip_class(cs, i + 1, class)
    } else {
        i
    }
}

/// Whether `cs` holds `c` at index `k`.
pub open spec fn at(cs: Seq<char>, k: int, c: char) -> bool {
    0 <= k < cs.len() && cs[k] == c
}

/// The kind of a word that starts with a letter or `_`: `_` alone, a keyword,
/// a boolean literal or an identifier.
pub open spec fn word_kind(w: Seq<char>) -> TokenKind {
    if w == seq!['_'] {
        TokenKind::Underscore
    } else if w == seq!['m', 'o', 'd', 'u', 'l', 'e'] {
        TokenKind::Module
    } else if w == seq!['i', 'm', 'p', 'o', 'r', 't'] {
        TokenKind::Import
    } else if w == seq!['a', 's'] {
        TokenKind::As
    } else if w == seq!['p', 'u', 'b'] {
        TokenKind::Pub
    } else if w == seq!['t', 'y', 'p', 'e'] {
        TokenKind::Type
    } else if w == seq!['e', 'n', 'u', 'm'] {
        TokenKind::Enum
    } else if w == seq!['i', 'n', 't', 'e', 'r', 'f', 'a', 'c', 'e'] {
        TokenKind::Interface
    } else if w == seq!['f', 'n'] {
        TokenKind::Fn
    } else if w == seq!['t', 'a', 's', 'k'] {
        TokenKind::Task
    } else if w == seq!['c', 'a', 'p', 's'] {
        TokenKind::Caps
    } else if w == seq!['i', 'm', 'p', 'l'] {
        TokenKind::Impl
    } else if w == seq!['l', 'e', 't'] {
        TokenKind::Let
    } else if w == seq!['m', 'u', 't'] {
        TokenKind::Mut
    } else if w == seq!['c', 'o', 'n', 's', 't'] {
        TokenKind::Const
    } else if w == seq!['i', 'f'] {
        TokenKind::If
    } else if w == seq!['e', 'l', 's', 'e'] {
        TokenKind::Else
    } else if w == seq!['m', 'a', 't', 'c', 'h'] {
        TokenKind::Match
    } else if w == seq!['f', 'o', 'r'] {
        TokenKind::For
    } else if w == seq!['w', 'h', 'i', 'l', 'e'] {
        TokenKind::While
    } else if w == seq!['i', 'n'] {
        TokenKind::In
    } else if w == seq!['r', 'e', 't', 'u', 'r', 'n'] {
        TokenKind::Return
    } else if w == seq!['b', 'r', 'e', 'a', 'k'] {
        TokenKind::Break
    } else if w == seq!['c', 'o', 'n', 't', 'i', 'n', 'u', 'e'] {
        TokenKind::Continue
    } else if w == seq!['t', 'r', 'y'] {
        TokenKind::Try
    } else if w == seq!['c', 'a', 't', 'c', 'h'] {
        TokenKind::Catch
    } else if w == seq!['f', 'a', 'i', 'l'] {
        TokenKind::Fail
    } else if w == seq!['d', 'e', 'f', 'e', 'r'] {
        TokenKind::Defer
    } else if w == seq!['a', 'n', 'd'] {
        TokenKind::And
    } else if w == seq!['o', 'r'] {
        TokenKind::Or
    } else if w == seq!['u', 's', 'i', 'n', 'g'] {
        TokenKind::Using
    } else if w == seq!['t', 'r', 'u', 'e'] || w == seq!['f', 'a', 'l', 's', 'e'] {
        TokenKind::Boolean
    } else {
        TokenKind::Ident
    }
}

/// What one step of the lexer does with the text it consumes.
pub enum Outcome {
    /// Nothing is emitted (white space, comments).
    Skip,
    /// A token of this kind is emitted.
    Emit(TokenKind),
    /// An error is reported.
    Fail(LexError),
}

/// One step of the lexer: where it stops and what it produces.
pub struct Step {
    pub next: int,
    pub outcome: Outcome,
}

/// Where a string literal whose contents start at `k` ends, and whether it
/// is closed by a quote. A backslash takes the character after it along.
pub open spec fn string_end(cs: Seq<char>, k: int) -> (int, bool)
    decreases cs.len() - k,
{
    if k < 0 || k >= cs.len() {
        (cs.len() as int, false)
    } else if cs[k] == '"' {
        (k + 1, true)
    } else if cs[k] == '\\' {
        if k + 2 <= cs.len() {
            string_end(cs, k + 2)
        } else {
            (cs.len() as int, false)
        }
    } else {
        string_end(cs, k + 1)
    }
}

/// A step that emits `kind` and stops at `next`.
pub open spec fn emit(next: int, kind: TokenKind) -> Step {
    Step { next, outcome: Outcome::Emit(kind) }
}

/// An operator with an optional second character: `compound` if `second`
/// follows the first character at `i`, `simple` otherwise.
pub open spec fn compound(cs: Seq<char>, i: int, second: char, compound: TokenKind, simple: TokenKind) -> Step {
    if at(cs, i + 1, second) {
        emit(i + 2, compound)
    } else {
        emit(i + 1, simple)
    }
}

/// The step taken on an operator, a delimiter, punctuation, a comment or an
/// unexpected character at `i`.
pub open spec fn operator_step(cs: Seq<char>, i: int) -> Step {
    let c = cs[i];
    if c == '>' {
        if at(cs, i + 1, '>') {
            if at(cs, i + 2, '=') { emit(i + 3, TokenKind::RShiftEqual) } else { emit(i + 2, TokenKind::RShift) }
        } else if at(cs, i + 1, '=') {
            emit(i + 2, TokenKind::GreaterEq)
        } else {
            emit(i + 1, TokenKind::Greater)
        }
    } else if c == '<' {
        if at(cs, i + 1, '<') {
            if at(cs, i + 2, '=') { emit(i + 3, TokenKind::LShiftEqual) } else { emit(i + 2, TokenKind::LShift) }
        } else if at(cs, i + 1, '=') {
            emit(i + 2, TokenKind::LessEq)
        } else {
            emit(i + 1, TokenKind::Less)
        }
    } else if c == '|' {
        if at(cs, i + 1, '>') {
            emit(i + 2, TokenKind::PipeGt)
        } else if at(cs, i + 1, '|') {
            emit(i + 2, TokenKind::PipePipe)
        } else if at(cs, i + 1, '=') {
            emit(i + 2, TokenKind::BitwiseOrEqual)
        } else {
            emit(i + 1, TokenKind::Pipe)
        }
    } else if c == '=' {
        if at(cs, i + 1, '>') {
            emit(i + 2, TokenKind::FatArrow)
        } else if at(cs, i + 1, '=') {
            emit(i + 2, TokenKind::EqualEqual)
        } else {
            emit(i + 1, TokenKind::Equal)
        }
    } else if c == '!' {
        if at(cs, i + 1, '=') {
            emit(i + 2, TokenKind::BangEqual)
        } else if at(cs, i + 1, '?') {
            emit(i + 2, TokenKind::FallibleOptional)
        } else {
            emit(i + 1, TokenKind::Not)
        }
    } else if c == '+' {
        compound(cs, i, '=', TokenKind::PlusEqual, TokenKind::Plus)
    } else if c == '-' {
        if at(cs, i + 1, '>') {
            emit(i + 2, TokenKind::Arrow)
        } else if at(cs, i + 1, '=') {
            emit(i + 2, TokenKind::MinusEqual)
        } else {
            emit(i + 1, TokenKind::Minus)
        }
    } else if c == '*' {
        compound(cs, i, '=', TokenKind::StarEqual, TokenKind::Star)
    } else if c == '/' {
        if at(cs, i + 1, '/') {
            Step { next: skip_class(cs, i + 2, CharClass::NotNewline), outcome: Outcome::Skip }
        } else if at(cs, i + 1, '=') {
            emit(i + 2, TokenKind::SlashEqual)
        } else {
            emit(i + 1, TokenKind::Slash)
        }
    } else if c == '%' {
        compound(cs, i, '=', TokenKind::PercentEqual, TokenKind::Percent)
    } else if c == '&' {
        compound(cs, i, '=', TokenKind::BitwiseAndEqual, TokenKind::BitwiseAnd)
    } else if c == '.' {
        compound(cs, i, '.', TokenKind::Range, TokenKind::Dot)
    } else if c == '(' {
        emit(i + 1, TokenKind::LParen)
    } else if c == ')' {
        emit(i + 1, TokenKind::RParen)
    } else if c == '{' {
        emit(i + 1, TokenKind::LBrace)
    } else if c == '}' {
        emit(i + 1, TokenKind::RBrace)
    } else if c == '[' {
        emit(i + 1, TokenKind::LBracket)
    } else if c == ']' {
        emit(i + 1, TokenKind::RBracket)
    } else if c == ',' {
        emit(i + 1, TokenKind::Comma)
    } else if c == ':' {
        emit(i + 1, TokenKind::Colon)
    } else if c == ';' {
        emit(i + 1, TokenKind::Semicolon)
    } else if c == '#' {
        emit(i + 1, TokenKind::Hash)
    } else if c == '@' {
        emit(i + 1, TokenKind::At)
    } else if c == '?' {
        emit(i + 1, TokenKind::Optional)
    } else {
        Step { next: i + 1, outcome: Outcome::Fail(LexError::UnexpectedChar(c)) }
    }
}

/// The step the lexer takes at index `i` of `cs` (which must be in range).
pub open spec fn lex_step(cs: Seq<char>, i: int) -> Step {
    let c = cs[i];
    if is_whitespace(c) {
        Step { next: skip_class(cs, i, CharClass::Whitespace), outcome: Outcome::Skip }
    } else if is_ident_start_spec(c) {
        let j = skip_class(cs, i + 1, CharClass::IdentContinue);
        emit(j, word_kind(cs.subrange(i, j)))
    } else if is_digit(c) {
        let j = skip_class(cs, i, CharClass::Digit);
        if at(cs, j, '.') && j + 1 < cs.len() && is_digit(cs[j + 1]) {
            emit(skip_class(cs, j + 1, CharClass::Digit), TokenKind::Float)
        } else {
            emit(j, TokenKind::Int)
        }
    } else if c == '"' {
        let (j, closed) = string_end(cs, i + 1);
        if closed {
            emit(j, TokenKind::String)
        } else {
            Step { next: j, outcome: Outcome::Fail(LexError::UnterminatedString) }
        }
    } else {
        operator_step(cs, i)
    }
}

/// The span of bytes that the characters `i..j` of `cs` occupy.
pub open spec fn char_span(cs: Seq<char>, i: int, j: int) -> Span {
    Span {
        start: byte_offset(cs, i) as usize,
        len: (byte_offset(cs, j) - byte_offset(cs, i)) as usize,
    }
}

/// The tokens and the errors (each with its span) that lexing `cs` from
/// index `i` to the end produces, before the end-of-file token.
pub open spec fn lex_from(cs: Seq<char>, i: int) -> (Seq<Token>, Seq<(LexError, Span)>)
    decreases cs.len() - i,
{
    if i < 0 || i >= cs.len() {
        (Seq::empty(), Seq::empty())
    } else {
        let st = lex_step(cs, i);
        if st.next <= i || st.next > cs.len() {
            (Seq::empty(), Seq::empty())
        } else {
            let rest = lex_from(cs, st.next);
            let span = char_span(cs, i, st.next);
            match st.outcome {
                Outcome::Skip => rest,
                Outcome::Emit(kind) => (seq![Token { kind, span }] + rest.0, rest.1),
                Outcome::Fail(e) => (rest.0, seq![(e, span)] + rest.1),
            }
        }
    }
}

/// `skip_class` never moves back and never passes the end.
pub proof fn lemma_skip_class_bounds(cs: Seq<char>, i: int, class: CharClass)
    requires
        0 <= i <= cs.len(),
    ensures
        i <= skip_class(cs, i, class) <= cs.len(),
        skip_class(cs, i, class) < cs.len() ==> !in_class(class, cs[skip_class(cs, i, class)]),
        forall|k: int| i <= k < skip_class(cs, i, class) ==> in_class(class, #[trigger] cs[k]),
    decreases cs.len() - i,
{
    if i < cs.len() && in_class(class, cs[i]) {
        lemma_skip_class_bounds(cs, i + 1, class);
    }
}

/// A string literal ends after its start and never past the end of the text.
pub proof fn lemma_string_end_bounds(cs: Seq<char>, k: int)
    requires
        0 <= k <= cs.len(),
    ensures
        k <= string_end(cs, k).0 <= cs.len(),
        string_end(cs, k).1 ==> k < string_end(cs, k).0,
    decreases cs.len() - k,
{
    if k < cs.len() && cs[k] != '"' {
        if cs[k] == '\\' {
            if k + 2 <= cs.len() {
                lemma_string_end_bounds(cs, k + 2);
            }
        } else {
            lemma_string_end_bounds(cs, k + 1);
        }
    }
}

/// Every step consumes at least one character and stays within the text.
pub proof fn lemma_step_progress(cs: Seq<char>, i: int)
    requires
        0 <= i < cs.len(),
    ensures
        i < lex_step(cs, i).next <= cs.len(),
{
    let c = cs[i];
    lemma_skip_class_bounds(cs, i, CharClass::Whitespace);
    lemma_skip_class_bounds(cs, i + 1, CharClass::IdentContinue);
    lemma_skip_class_bounds(cs, i, CharClass::Digit);
    let j = skip_class(cs, i, CharClass::Digit);
    if j + 1 <= cs.len() {
        lemma_skip_class_bounds(cs, j + 1, CharClass::Digit);
    }
    lemma_string_end_bounds(cs, i + 1);
    if i + 2 <= cs.len() {
        lemma_skip_class_bounds(cs, i + 2, CharClass::NotNewline);
    }
}

/// Whether `c` has the Unicode `White_Space` property.
pub fn is_whitespace_char(c: char) -> (b: bool)
    ensures
        b == is_whitespace(c),
{
    let u = c as u32;
    (0x9 <= u && u <= 0xD) || u == 0x20 || u == 0x85 || u == 0xA0 || u == 0x1680 || (0x2000 <= u
        && u <= 0x200A) || u == 0x2028 || u == 0x2029 || u == 0x202F || u == 0x205F || u == 0x3000
}

/// Whether `c` is an ASCII digit.
pub fn is_digit_char(c: char) -> (b: bool)
    ensures
        b == is_digit(c),
{
    let u = c as u32;
    0x30 <= u && u <= 0x39
}

/// Whether `c` may start an identifier: an ASCII letter or `_`.
pub fn is_ident_start(c: char) -> (b: bool)
    ensures
        b == is_ident_start_spec(c),
{
    let u = c as u32;
    (0x41 <= u && u <= 0x5A) || (0x61 <= u && u <= 0x7A) || c == '_'
}

/// Whether `c` may continue an identifier: an ASCII letter, a digit or `_`.
pub fn is_ident_continue(c: char) -> (b: bool)
    ensures
        b == is_ident_continue_spec(c),
{
    is_ident_start(c) || is_digit_char(c)
}

/// Whether `c` belongs to `class`.
pub fn char_in_class(class: &CharClass, c: char) -> (b: bool)
    ensures
        b == in_class(*class, c),
{
    match class {
        CharClass::Whitespace => is_whitespace_char(c),
        CharClass::IdentContinue => is_ident_continue(c),
        CharClass::Digit => is_digit_char(c),
        CharClass::NotNewline => c != '\n',
    }
}

/// Whether the characters `w` spell the word `kw`.
pub fn eq_word(w: &[char], kw: &[char]) -> (b: bool)
    ensures
        b == (w@ == kw@),
{
    if w.len() != kw.len() {
        return false;
    }
    let mut i: usize = 0;
    while i < w.len()
        invariant
            i <= w@.len(),
            w@.len() == kw@.len(),
            forall|k: int| 0 <= k < i ==> w@[k] == kw@[k],
        decreases w@.len() - i,
    {
        if w[i] != kw[i] {
            return false;
        }
        i += 1;
    }
    assert(w@ =~= kw@);
    true
}

/// The kind of the word `w`, which starts with a letter or `_`.
pub fn classify_word(w: &[char]) -> (k: TokenKind)
    ensures
        k == word_kind(w@),
{
    let kw: [char; 1] = ['_'];
    assert(kw@ == seq!['_']);
    assert(kw@ =~= seq!['_']);
    if eq_word(w, &kw) {
        return TokenKind::Underscore;
    }
    let kw: [char; 6] = ['m', 'o', 'd', 'u', 'l', 'e'];
    if eq_word(w, &kw) {
        return TokenKind::Module;
    }
    let kw: [char; 6] = ['i', 'm', 'p', 'o', 'r', 't'];
    if eq_word(w, &kw) {
        return TokenKind::Import;
    }
    let kw: [char; 2] = ['a', 's'];
    if eq_word(w, &kw) {
        return TokenKind::As;
    }
    let kw: [char; 3] = ['p', 'u', 'b'];
    if eq_word(w, &kw) {
        return TokenKind::Pub;
    }
    let kw: [char; 4] = ['t', 'y', 'p', 'e'];
    if eq_word(w, &kw) {
        return TokenKind::Type;
    }
    let kw: [char; 4] = ['e', 'n', 'u', 'm'];
    if eq_word(w, &kw) {
        return TokenKind::Enum;
    }
    let kw: [char; 9] = ['i', 'n', 't', 'e', 'r', 'f', 'a', 'c', 'e'];
    if eq_word(w, &kw) {
        return TokenKind::Interface;
    }
    let kw: [char; 2] = ['f', 'n'];
    if eq_word(w, &kw) {
        return TokenKind::Fn;
    }
    let kw: [char; 4] = ['t', 'a', 's', 'k'];
    if eq_word(w, &kw) {
        return TokenKind::Task;
    }
    let kw: [char; 4] = ['c', 'a', 'p', 's'];
    if eq_word(w, &kw) {
        return TokenKind::Caps;
    }
    let kw: [char; 4] = ['i', 'm', 'p', 'l'];
    if eq_word(w, &kw) {
        return TokenKind::Impl;
    }
    let kw: [char; 3] = ['l', 'e', 't'];
    if eq_word(w, &kw) {
        return TokenKind::Let;
    }
    let kw: [char; 3] = ['m', 'u', 't'];
    if eq_word(w, &kw) {
        return TokenKind::Mut;
    }
    let kw: [char; 5] = ['c', 'o', 'n', 's', 't'];
    if eq_word(w, &kw) {
        return TokenKind::Const;
    }
    let kw: [char; 2] = ['i', 'f'];
    if eq_word(w, &kw) {
        return TokenKind::If;
    }
    let kw: [char; 4] = ['e', 'l', 's', 'e'];
    if eq_word(w, &kw) {
        return TokenKind::Else;
    }
    let kw: [char; 5] = ['m', 'a', 't', 'c', 'h'];
    if eq_word(w, &kw) {
        return TokenKind::Match;
    }
    let kw: [char; 3] = ['f', 'o', 'r'];
    if eq_word(w, &kw) {
        return TokenKind::For;
    }
    let kw: [char; 5] = ['w', 'h', 'i', 'l', 'e'];
    if eq_word(w, &kw) {
        return TokenKind::While;
    }
    let kw: [char; 2] = ['i', 'n'];
    if eq_word(w, &kw) {
        return TokenKind::In;
    }
    let kw: [char; 6] = ['r', 'e', 't', 'u', 'r', 'n'];
    if eq_word(w, &kw) {
        return TokenKind::Return;
    }
    let kw: [char; 5] = ['b', 'r', 'e', 'a', 'k'];
    if eq_word(w, &kw) {
        return TokenKind::Break;
    }
    let kw: [char; 8] = ['c', 'o', 'n', 't', 'i', 'n', 'u', 'e'];
    if eq_word(w, &kw) {
        return TokenKind::Continue;
    }
    let kw: [char; 3] = ['t', 'r', 'y'];
    if eq_word(w, &kw) {
        return TokenKind::Try;
    }
    let kw: [char; 5] = ['c', 'a', 't', 'c', 'h'];
    if eq_word(w, &kw) {
        return TokenKind::Catch;
    }
    let kw: [char; 4] = ['f', 'a', 'i', 'l'];
    if eq_word(w, &kw) {
        return TokenKind::Fail;
    }
    let kw: [char; 5] = ['d', 'e', 'f', 'e', 'r'];
    if eq_word(w, &kw) {
        return TokenKind::Defer;
    }
    let kw: [char; 3] = ['a', 'n', 'd'];
    if eq_word(w, &kw) {
        return TokenKind::And;
    }
    let kw: [char; 2] = ['o', 'r'];
    if eq_word(w, &kw) {
        return TokenKind::Or;
    }
    let kw: [char; 5] = ['u', 's', 'i', 'n', 'g'];
    if eq_word(w, &kw) {
        return TokenKind::Using;
    }
    let t: [char; 4] = ['t', 'r', 'u', 'e'];
    let f: [char; 5] = ['f', 'a', 'l', 's', 'e'];
    if eq_word(w, &t) || eq_word(w, &f) {
        return TokenKind::Boolean;
    }
    TokenKind::Ident
}

} // verus!
