//! The lexer: from source text to tokens and lexical diagnostics.
pub mod cursor;
pub mod diagnostic;
pub mod error;
pub mod laws;
pub mod rules;

use vstd::prelude::*;
use vstd::slice::slice_subrange;

use crate::diagnostic::{Diagnostic, DiagnosticView, Diagnostics};
use crate::query::AnalysisResult;
use crate::source::SourceFile;
use std::sync::Arc;
use crate::lexer::cursor::Cursor;
use crate::lexer::diagnostic::{lex_error_diagnostic, map_lex_error};
use crate::lexer::error::LexError;
use crate::lexer::rules::{
    char_span, classify_word, is_digit_char, is_ident_start, is_whitespace_char, lemma_step_progress,
    lex_from, lex_step, CharClass, Outcome,
};
use crate::source::SourceFileId;
use crate::span::Span;
use crate::text::{byte_len, byte_offset, lemma_byte_offset_mono};
use crate::token::{Token, TokenKind};

verus! {

/// The tokens that lexing `cs` produces: those of the text, then the
/// end-of-file token, one byte long, at the byte length of the text.
pub open spec fn lexed_tokens(cs: Seq<char>) -> Seq<Token> {
    lex_from(cs, 0).0.push(
        Token { kind: TokenKind::Eof, span: Span { start: byte_len(cs) as usize, len: 1 } },
    )
}

/// The lexical errors, each with its span, that lexing `cs` reports, in order.
pub open spec fn lexed_errors(cs: Seq<char>) -> Seq<(LexError, Span)> {
    lex_from(cs, 0).1
}

/// The diagnostics that lexing `cs`, the text of `file`, reports, in order.
pub open spec fn lexed_diagnostics(cs: Seq<char>, file: SourceFileId) -> Seq<DiagnosticView> {
    lexed_errors(cs).map_values(|p: (LexError, Span)| lex_error_diagnostic(p.0, file, p.1))
}

/// What a lexer produces: the tokens, ending with the end-of-file token, and
/// the diagnostics.
pub struct LexOutput {
    pub tokens: Vec<Token>,
    pub diagnostics: Vec<Diagnostic>,
}

/// Splits the text of one source file into tokens.
pub struct Lexer {
    cursor: Cursor,
    source_id: SourceFileId,
    tokens: Vec<Token>,
    diagnostics: Vec<Diagnostic>,
    errors: Ghost<Seq<(LexError, Span)>>,
}

impl Lexer {
    /// The characters of the text being lexed.
    pub closed spec fn source(&self) -> Seq<char> {
        self.cursor.chars@
    }

    /// The file whose text is being lexed.
    pub closed spec fn file(&self) -> SourceFileId {
        self.source_id
    }

    /// The cursor is consistent with the text.
    pub closed spec fn cursor_ok(&self) -> bool {
        self.cursor.wf()
    }

    /// The index of the character the lexer is at.
    pub closed spec fn index_spec(&self) -> int {
        self.cursor.index as int
    }

    /// The tokens produced so far.
    pub closed spec fn tokens_spec(&self) -> Seq<Token> {
        self.tokens@
    }

    /// The diagnostics reported so far.
    pub closed spec fn diagnostics_spec(&self) -> Seq<DiagnosticView> {
        self.diagnostics@.map_values(|d: Diagnostic| d@)
    }

    /// What has been produced so far, together with what the rest of the text
    /// produces, is what the whole text produces.
    pub closed spec fn wf(&self) -> bool {
        let cs = self.cursor.chars@;
        let rest = lex_from(cs, self.cursor.index as int);
        &&& self.cursor.wf()
        &&& lex_from(cs, 0).0 == self.tokens@ + rest.0
        &&& lex_from(cs, 0).1 == self.errors@ + rest.1
        &&& self.diagnostics@.len() == self.errors@.len()
        &&& forall|k: int|
            0 <= k < self.errors@.len() ==> #[trigger] self.diagnostics@[k]@ == lex_error_diagnostic(
                self.errors@[k].0,
                self.source_id,
                self.errors@[k].1,
            )
    }

    /// Whether `new` is `old` after one step of the lexer from index `i`.
    pub closed spec fn stepped(old: &Lexer, new: &Lexer, i: int) -> bool {
        let cs = old.cursor.chars@;
        let st = lex_step(cs, i);
        let span = char_span(cs, i, st.next);
        &&& new.cursor.wf()
        &&& new.cursor.chars@ == cs
        &&& new.source_id == old.source_id
        &&& new.cursor.index == st.next
        &&& match st.outcome {
            Outcome::Skip => {
                &&& new.tokens@ == old.tokens@
                &&& new.errors@ == old.errors@
                &&& new.diagnostics@ == old.diagnostics@
            },
            Outcome::Emit(kind) => {
                &&& new.tokens@ == old.tokens@.push(Token { kind, span })
                &&& new.errors@ == old.errors@
                &&& new.diagnostics@ == old.diagnostics@
            },
            Outcome::Fail(e) => {
                &&& new.tokens@ == old.tokens@
                &&& new.errors@ == old.errors@.push((e, span))
                &&& new.diagnostics@.len() == old.diagnostics@.len() + 1
                &&& new.diagnostics@.drop_last() == old.diagnostics@
                &&& new.diagnostics@.last()@ == lex_error_diagnostic(e, old.source_id, span)
            },
        }
    }

    /// A lexer at the start of `text`, the text of the file `source_id`.
    pub fn new(source_id: SourceFileId, text: &str) -> (l: Lexer)
        ensures
            l.wf(),
            l.source() == text@,
            l.file() == source_id,
    {
        let l = Lexer {
            cursor: Cursor::new(text),
            source_id,
            tokens: Vec::new(),
            diagnostics: Vec::new(),
            errors: Ghost(Seq::empty()),
        };
        assert(l.tokens@ + lex_from(l.cursor.chars@, 0).0 =~= lex_from(l.cursor.chars@, 0).0);
        assert(l.errors@ + lex_from(l.cursor.chars@, 0).1 =~= lex_from(l.cursor.chars@, 0).1);
        l
    }

    /// Lexes the whole text: its tokens, then the end-of-file token, and the
    /// diagnostics for the lexical errors, in order.
    pub fn run(self) -> (out: LexOutput)
        requires
            self.wf(),
        ensures
            out.tokens@ == lexed_tokens(self.source()),
            out.diagnostics@.map_values(|d: Diagnostic| d@) == lexed_diagnostics(
                self.source(),
                self.file(),
            ),
    {
        let ghost cs = self.cursor.chars@;
        let ghost file = self.source_id;
        let mut lexer = self;
        while !lexer.cursor.is_eof()
            invariant
                lexer.wf(),
                lexer.cursor.chars@ == cs,
                lexer.source_id == file,
            decreases cs.len() - lexer.cursor.index,
        {
            let ghost before = lexer;
            let ghost i = lexer.cursor.index as int;
            lexer.lex_next_token();
            proof {
                Self::lemma_step_keeps_wf(&before, &lexer, i);
            }
        }
        let eof_pos = lexer.cursor.position();
        lexer.tokens.push(Token::new(TokenKind::Eof, Span::new(eof_pos, 1)));
        proof {
            let rest = lex_from(cs, cs.len() as int);
            assert(rest.0 =~= Seq::<Token>::empty());
            assert(rest.1 =~= Seq::<(LexError, Span)>::empty());
            assert(lex_from(cs, 0).0 =~= lexer.tokens@.drop_last());
            assert(lex_from(cs, 0).1 =~= lexer.errors@);
            assert(cs.take(cs.len() as int) =~= cs);
            assert(lexer.tokens@ =~= lexed_tokens(cs));
            assert(lexer.diagnostics@.map_values(|d: Diagnostic| d@) =~= lexed_diagnostics(cs, file));
        }
        LexOutput { tokens: lexer.tokens, diagnostics: lexer.diagnostics }
    }

    /// One step keeps the correspondence between what has been produced and
    /// what the text produces.
    proof fn lemma_step_keeps_wf(old: &Lexer, new: &Lexer, i: int)
        requires
            old.wf(),
            i == old.cursor.index,
            i < old.cursor.chars@.len(),
            Self::stepped(old, new, i),
        ensures
            new.wf(),
            new.cursor.index > i,
    {
        let cs = old.cursor.chars@;
        lemma_step_progress(cs, i);
        let st = lex_step(cs, i);
        let rest = lex_from(cs, st.next);
        let span = char_span(cs, i, st.next);
        match st.outcome {
            Outcome::Skip => {},
            Outcome::Emit(kind) => {
                assert(old.tokens@ + (seq![Token { kind, span }] + rest.0) =~= new.tokens@
                    + rest.0);
            },
            Outcome::Fail(e) => {
                assert(old.errors@ + (seq![(e, span)] + rest.1) =~= new.errors@ + rest.1);
                assert forall|k: int| 0 <= k < new.errors@.len() implies #[trigger] new.diagnostics@[k]@
                    == lex_error_diagnostic(new.errors@[k].0, new.source_id, new.errors@[k].1) by {
                    if k < old.errors@.len() {
                        assert(new.diagnostics@[k] == new.diagnostics@.drop_last()[k]);
                    }
                }
            },
        }
    }

    /// One step of the lexer, as `lex_next_token` takes it, moves forward
    /// and keeps what was produced before: it adds at most one token or one
    /// diagnostic after them (whitespace and comments add nothing).
    pub proof fn law_step_moves_forward(old: &Lexer, new: &Lexer)
        requires
            0 <= old.index_spec() < old.source().len(),
            Self::stepped(old, new, old.index_spec()),
        ensures
            new.index_spec() > old.index_spec(),
            new.source() == old.source(),
            old.tokens_spec().is_prefix_of(new.tokens_spec()),
            old.diagnostics_spec().is_prefix_of(new.diagnostics_spec()),
            (new.tokens_spec().len() - old.tokens_spec().len()) + (new.diagnostics_spec().len()
                - old.diagnostics_spec().len()) <= 1,
    {
        let cs = old.cursor.chars@;
        let i = old.cursor.index as int;
        lemma_step_progress(cs, i);
        let st = lex_step(cs, i);
        match st.outcome {
            Outcome::Fail(e) => {
                assert forall|k: int| 0 <= k < old.diagnostics@.len() implies #[trigger] old.diagnostics_spec()[k]
                    == new.diagnostics_spec()[k] by {
                    assert(new.diagnostics@.drop_last()[k] == new.diagnostics@[k]);
                }
            },
            _ => {},
        }
    }

    /// Lexes whatever starts at the current character: one step, as
    /// `law_step_moves_forward` describes it.
    pub fn lex_next_token(&mut self)
        requires
            old(self).cursor_ok(),
            old(self).index_spec() < old(self).source().len(),
        ensures
            Self::stepped(old(self), final(self), old(self).index_spec()),
    {
        let start = self.cursor.position();
        let ch = match self.cursor.peek() {
            Some(c) => c,
            None => return ,
        };
        if is_whitespace_char(ch) {
            self.cursor.skip_class(CharClass::Whitespace);
        } else if is_ident_start(ch) {
            self.lex_identifier_or_keyword(start);
        } else if is_digit_char(ch) {
            self.lex_number(start);
        } else if ch == '"' {
            self.lex_string(start);
        } else {
            self.lex_operator_or_punctuation(start);
        }
    }

    /// Lexes an identifier, a keyword, `_` or a boolean literal.
    fn lex_identifier_or_keyword(&mut self, start: usize)
        requires
            old(self).cursor.wf(),
            old(self).cursor.index < old(self).cursor.chars@.len(),
            start == old(self).cursor.pos,
            ({
                let c = old(self).cursor.chars@[old(self).cursor.index as int];
                !rules::is_whitespace(c) && rules::is_ident_start_spec(c)
            }),
        ensures
            Self::stepped(old(self), final(self), old(self).index_spec()),
    {
        let first = self.cursor.index;
        self.cursor.bump();
        self.cursor.skip_class(CharClass::IdentContinue);
        proof {
            rules::lemma_skip_class_bounds(self.cursor.chars@, first + 1, CharClass::IdentContinue);
            lemma_byte_offset_mono(self.cursor.chars@, first as int, self.cursor.index as int);
        }
        let end = self.cursor.position();
        let kind = {
            let w = slice_subrange(self.cursor.chars.as_slice(), first, self.cursor.index);
            classify_word(w)
        };
        self.push_token(kind, start, end);
    }

    /// Lexes an integer or a float literal.
    fn lex_number(&mut self, start: usize)
        requires
            old(self).cursor.wf(),
            old(self).cursor.index < old(self).cursor.chars@.len(),
            start == old(self).cursor.pos,
            ({
                let c = old(self).cursor.chars@[old(self).cursor.index as int];
                !rules::is_whitespace(c) && !rules::is_ident_start_spec(c) && rules::is_digit(c)
            }),
        ensures
            Self::stepped(old(self), final(self), old(self).index_spec()),
    {
        let ghost i = self.cursor.index as int;
        let ghost cs = self.cursor.chars@;
        self.cursor.skip_class(CharClass::Digit);
        proof {
            rules::lemma_skip_class_bounds(cs, i, CharClass::Digit);
        }
        let mut kind = TokenKind::Int;
        let is_float = if self.cursor.peek() == Some('.') {
            match self.cursor.peek_at(1) {
                Some(c) => is_digit_char(c),
                None => false,
            }
        } else {
            false
        };
        if is_float {
            self.cursor.bump();
            let ghost j = self.cursor.index as int;
            self.cursor.skip_class(CharClass::Digit);
            proof {
                rules::lemma_skip_class_bounds(cs, j, CharClass::Digit);
            }
            kind = TokenKind::Float;
        }
        proof {
            lemma_byte_offset_mono(cs, i, self.cursor.index as int);
        }
        let end = self.cursor.position();
        self.push_token(kind, start, end);
    }

    /// Lexes a string literal, or reports it unterminated.
    fn lex_string(&mut self, start: usize)
        requires
            old(self).cursor.wf(),
            old(self).cursor.index < old(self).cursor.chars@.len(),
            start == old(self).cursor.pos,
            ({
                let c = old(self).cursor.chars@[old(self).cursor.index as int];
                !rules::is_whitespace(c) && !rules::is_ident_start_spec(c) && !rules::is_digit(c)
                    && c == '"'
            }),
        ensures
            Self::stepped(old(self), final(self), old(self).index_spec()),
    {
        let ghost i = self.cursor.index as int;
        let ghost cs = self.cursor.chars@;
        self.cursor.bump();
        loop
            invariant
                self.cursor.wf(),
                self.cursor.chars@ == cs,
                self.source_id == old(self).source_id,
                self.tokens@ == old(self).tokens@,
                self.errors@ == old(self).errors@,
                self.diagnostics@ == old(self).diagnostics@,
                0 <= i < self.cursor.index,
                i == old(self).cursor.index,
                cs == old(self).cursor.chars@,
                cs[i] == '"',
                start == byte_offset(cs, i),
                rules::string_end(cs, i + 1) == rules::string_end(cs, self.cursor.index as int),
            ensures
                self.cursor.wf(),
                self.cursor.chars@ == cs,
                self.source_id == old(self).source_id,
                self.tokens@ == old(self).tokens@,
                self.errors@ == old(self).errors@,
                self.diagnostics@ == old(self).diagnostics@,
                self.cursor.index == cs.len(),
                rules::string_end(cs, i + 1) == rules::string_end(cs, self.cursor.index as int),
            decreases cs.len() - self.cursor.index,
        {
            match self.cursor.peek() {
                Some(ch) => {
                    if ch == '"' {
                        self.cursor.bump();
                        proof {
                            lemma_byte_offset_mono(cs, i, self.cursor.index as int);
                        }
                        let end = self.cursor.position();
                        self.push_token(TokenKind::String, start, end);
                        return ;
                    } else if ch == '\\' {
                        self.cursor.bump();
                        self.cursor.bump();
                    } else {
                        self.cursor.bump();
                    }
                },
                None => {
                    break ;
                },
            }
        }
        self.report_error(LexError::UnterminatedString, start, Ghost(i));
    }

    /// Lexes an operator, a delimiter, punctuation or a comment, or reports an
    /// unexpected character.
    fn lex_operator_or_punctuation(&mut self, start: usize)
        requires
            old(self).cursor.wf(),
            old(self).cursor.index < old(self).cursor.chars@.len(),
            start == old(self).cursor.pos,
            ({
                let c = old(self).cursor.chars@[old(self).cursor.index as int];
                !rules::is_whitespace(c) && !rules::is_ident_start_spec(c) && !rules::is_digit(c)
                    && c != '"'
            }),
        ensures
            Self::stepped(old(self), final(self), old(self).index_spec()),
    {
        let ghost i = self.cursor.index as int;
        let first_char = self.cursor.bump().unwrap();
        if first_char == '>' {
            if self.cursor.bump_if('>') {
                if self.cursor.bump_if('=') {
                    self.push_simple(TokenKind::RShiftEqual, start, Ghost(i));
                } else {
                    self.push_simple(TokenKind::RShift, start, Ghost(i));
                }
            } else if self.cursor.bump_if('=') {
                self.push_simple(TokenKind::GreaterEq, start, Ghost(i));
            } else {
                self.push_simple(TokenKind::Greater, start, Ghost(i));
            }
        } else if first_char == '<' {
            if self.cursor.bump_if('<') {
                if self.cursor.bump_if('=') {
                    self.push_simple(TokenKind::LShiftEqual, start, Ghost(i));
                } else {
                    self.push_simple(TokenKind::LShift, start, Ghost(i));
                }
            } else if self.cursor.bump_if('=') {
                self.push_simple(TokenKind::LessEq, start, Ghost(i));
            } else {
                self.push_simple(TokenKind::Less, start, Ghost(i));
            }
        } else if first_char == '|' {
            if self.cursor.bump_if('>') {
                self.push_simple(TokenKind::PipeGt, start, Ghost(i));
            } else if self.cursor.bump_if('|') {
                self.push_simple(TokenKind::PipePipe, start, Ghost(i));
            } else if self.cursor.bump_if('=') {
                self.push_simple(TokenKind::BitwiseOrEqual, start, Ghost(i));
            } else {
                self.push_simple(TokenKind::Pipe, start, Ghost(i));
            }
        } else if first_char == '=' {
            if self.cursor.bump_if('>') {
                self.push_simple(TokenKind::FatArrow, start, Ghost(i));
            } else if self.cursor.bump_if('=') {
                self.push_simple(TokenKind::EqualEqual, start, Ghost(i));
            } else {
                self.push_simple(TokenKind::Equal, start, Ghost(i));
            }
        } else if first_char == '!' {
            if self.cursor.bump_if('=') {
                self.push_simple(TokenKind::BangEqual, start, Ghost(i));
            } else if self.cursor.bump_if('?') {
                self.push_simple(TokenKind::FallibleOptional, start, Ghost(i));
            } else {
                self.push_simple(TokenKind::Not, start, Ghost(i));
            }
        } else if first_char == '+' {
            self.lex_compound(start, Ghost(i), '=', TokenKind::PlusEqual, TokenKind::Plus);
        } else if first_char == '-' {
            if self.cursor.bump_if('>') {
                self.push_simple(TokenKind::Arrow, start, Ghost(i));
            } else if self.cursor.bump_if('=') {
                self.push_simple(TokenKind::MinusEqual, start, Ghost(i));
            } else {
                self.push_simple(TokenKind::Minus, start, Ghost(i));
            }
        } else if first_char == '*' {
            self.lex_compound(start, Ghost(i), '=', TokenKind::StarEqual, TokenKind::Star);
        } else if first_char == '/' {
            if self.cursor.bump_if('/') {
                self.cursor.skip_class(CharClass::NotNewline);
            } else if self.cursor.bump_if('=') {
                self.push_simple(TokenKind::SlashEqual, start, Ghost(i));
            } else {
                self.push_simple(TokenKind::Slash, start, Ghost(i));
            }
        } else if first_char == '%' {
            self.lex_compound(start, Ghost(i), '=', TokenKind::PercentEqual, TokenKind::Percent);
        } else if first_char == '&' {
            self.lex_compound(start, Ghost(i), '=', TokenKind::BitwiseAndEqual, TokenKind::BitwiseAnd);
        } else if first_char == '.' {
            self.lex_compound(start, Ghost(i), '.', TokenKind::Range, TokenKind::Dot);
        } else if first_char == '(' {
            self.push_simple(TokenKind::LParen, start, Ghost(i));
        } else if first_char == ')' {
            self.push_simple(TokenKind::RParen, start, Ghost(i));
        } else if first_char == '{' {
            self.push_simple(TokenKind::LBrace, start, Ghost(i));
        } else if first_char == '}' {
            self.push_simple(TokenKind::RBrace, start, Ghost(i));
        } else if first_char == '[' {
            self.push_simple(TokenKind::LBracket, start, Ghost(i));
        } else if first_char == ']' {
            self.push_simple(TokenKind::RBracket, start, Ghost(i));
        } else if first_char == ',' {
            self.push_simple(TokenKind::Comma, start, Ghost(i));
        } else if first_char == ':' {
            self.push_simple(TokenKind::Colon, start, Ghost(i));
        } else if first_char == ';' {
            self.push_simple(TokenKind::Semicolon, start, Ghost(i));
        } else if first_char == '#' {
            self.push_simple(TokenKind::Hash, start, Ghost(i));
        } else if first_char == '@' {
            self.push_simple(TokenKind::At, start, Ghost(i));
        } else if first_char == '?' {
            self.push_simple(TokenKind::Optional, start, Ghost(i));
        } else {
            self.report_error(LexError::UnexpectedChar(first_char), start, Ghost(i));
        }
    }

    /// Emits `compound_kind` if `next_char` follows, `simple_kind` otherwise.
    fn lex_compound(
        &mut self,
        start: usize,
        Ghost(first): Ghost<int>,
        next_char: char,
        compound_kind: TokenKind,
        simple_kind: TokenKind,
    )
        requires
            old(self).cursor.wf(),
            first == old(self).cursor.index - 1,
            0 <= first,
            start == byte_offset(old(self).cursor.chars@, first),
        ensures
            final(self).cursor.wf(),
            final(self).cursor.chars@ == old(self).cursor.chars@,
            final(self).source_id == old(self).source_id,
            final(self).errors@ == old(self).errors@,
            final(self).diagnostics@ == old(self).diagnostics@,
            ({
                let cs = old(self).cursor.chars@;
                let i = old(self).cursor.index - 1;
                let st = rules::compound(cs, i, next_char, compound_kind, simple_kind);
                &&& final(self).cursor.index == st.next
                &&& st.outcome matches Outcome::Emit(kind) && final(self).tokens@ == old(
                    self,
                ).tokens@.push(Token { kind, span: char_span(cs, i, st.next) })
            }),
    {
        if self.cursor.bump_if(next_char) {
            self.push_simple(compound_kind, start, Ghost(first));
        } else {
            self.push_simple(simple_kind, start, Ghost(first));
        }
    }

    /// Emits a token of `kind` that ends at the current position.
    fn push_simple(&mut self, kind: TokenKind, start: usize, Ghost(first): Ghost<int>)
        requires
            old(self).cursor.wf(),
            0 <= first <= old(self).cursor.index,
            start == byte_offset(old(self).cursor.chars@, first),
        ensures
            final(self).cursor == old(self).cursor,
            final(self).source_id == old(self).source_id,
            final(self).errors@ == old(self).errors@,
            final(self).diagnostics@ == old(self).diagnostics@,
            final(self).tokens@ == old(self).tokens@.push(
                Token { kind, span: Span { start, len: (old(self).cursor.pos - start) as usize } },
            ),
    {
        proof {
            lemma_byte_offset_mono(self.cursor.chars@, first, self.cursor.index as int);
        }
        let end = self.cursor.position();
        self.push_token(kind, start, end);
    }

    /// Emits a token of `kind` over the bytes `start..end`.
    fn push_token(&mut self, kind: TokenKind, start: usize, end: usize)
        requires
            start <= end,
        ensures
            final(self).cursor == old(self).cursor,
            final(self).source_id == old(self).source_id,
            final(self).errors@ == old(self).errors@,
            final(self).diagnostics@ == old(self).diagnostics@,
            final(self).tokens@ == old(self).tokens@.push(
                Token { kind, span: Span { start, len: (end - start) as usize } },
            ),
    {
        self.tokens.push(Token::new(kind, Span::new(start, end - start)));
    }

    /// Reports `error` over the bytes from `start` to the current position.
    fn report_error(&mut self, error: LexError, start: usize, Ghost(first): Ghost<int>)
        requires
            old(self).cursor.wf(),
            0 <= first <= old(self).cursor.index,
            start == byte_offset(old(self).cursor.chars@, first),
        ensures
            final(self).cursor == old(self).cursor,
            final(self).source_id == old(self).source_id,
            final(self).tokens@ == old(self).tokens@,
            ({
                let span = Span { start, len: (old(self).cursor.pos - start) as usize };
                &&& final(self).errors@ == old(self).errors@.push((error, span))
                &&& final(self).diagnostics@.len() == old(self).diagnostics@.len() + 1
                &&& final(self).diagnostics@.drop_last() == old(self).diagnostics@
                &&& final(self).diagnostics@.last()@ == lex_error_diagnostic(
                    error,
                    old(self).source_id,
                    span,
                )
            }),
    {
        proof {
            lemma_byte_offset_mono(self.cursor.chars@, first, self.cursor.index as int);
        }
        let end = self.cursor.position();
        let span = Span::new(start, end - start);
        self.diagnostics.push(map_lex_error(error, self.source_id, span));
        self.errors = Ghost(self.errors@.push((error, span)));
        assert(self.diagnostics@.drop_last() =~= old(self).diagnostics@);
    }
}

/// The tokens of a source file, ending with the end-of-file token, and the
/// diagnostics for its lexical errors.
pub fn lex(source: &SourceFile) -> (r: AnalysisResult<Vec<Token>>)
    ensures
        r.value@ == lexed_tokens(source.text_spec()),
        r.diagnostics@ == lexed_diagnostics(source.text_spec(), source.id_spec()),
{
    let lexer = Lexer::new(source.id(), source.text());
    let output = lexer.run();
    AnalysisResult {
        value: Arc::new(output.tokens),
        diagnostics: Arc::new(Diagnostics::new(output.diagnostics)),
    }
}

} // verus!
