//! The parser: from tokens to a syntax tree and syntax diagnostics.
pub mod diagnostic;
pub mod error;
pub mod grammar;
pub mod literal;
pub mod stream;

use vstd::prelude::*;
use vstd::slice::slice_subrange;

use crate::ast::expression::{BinaryExpr, BinaryOp, ExprKind, Literal, UnaryExpr, UnaryOp};
use crate::ast::item::ItemKind;
use crate::ast::statement::StmtKind;
use crate::ast::view::{expr_view, ExprNode, ExprView};
use crate::ast::{Ast, Expression, Item, Spanned};
use crate::diagnostic::{codes, Diagnostic, DiagnosticView, Diagnostics};
use crate::lexer::{lex, lexed_tokens};
use crate::lexer::laws::lemma_lexed_tokens_parsable;
use crate::query::AnalysisResult;
use crate::source::SourceFile;
use std::sync::Arc;
use crate::lexer::rules::eq_word;
use crate::parser::diagnostic::{map_parse_error, parse_error_diagnostic};
use crate::parser::error::ParseError;
use crate::parser::grammar::{
    aligned, char_index_of, is_literal_kind, lemma_char_index_unique, lemma_parse_level,
    lemma_parse_tail, lemma_recover, level_chains, level_op, literal_value, parsable,
    parse_items_spec, parse_level_spec, parse_literal_spec, parse_tail_spec, recover_spec,
    span_text, Parsed,
};
use crate::parser::literal::{parse_i64, strip_quotes_spec, unescape};
use crate::parser::stream::{at_eof, TokenStream};
use crate::source::SourceFileId;
use crate::span::Span;
use crate::text::{byte_len, byte_offset, chars_of, lemma_byte_offset_mono, lemma_byte_offset_step, string_from_chars, utf8_width};
use crate::token::{Token, TokenKind};

verus! {

/// The diagnostic for an unexpected token of kind `e.0` at `e.1` in `file`.
pub open spec fn unexpected_token_diagnostic(file: SourceFileId, e: (TokenKind, Span)) -> DiagnosticView {
    parse_error_diagnostic(ParseError::UnexpectedToken { found: e.0 }, file, e.1)
}

/// The diagnostics for the unexpected tokens `errs`, in order.
pub open spec fn unexpected_token_diagnostics(file: SourceFileId, errs: Seq<(TokenKind, Span)>) -> Seq<DiagnosticView> {
    errs.map_values(|e: (TokenKind, Span)| unexpected_token_diagnostic(file, e))
}

/// The views of a sequence of diagnostics.
pub open spec fn diagnostic_views(ds: Seq<Diagnostic>) -> Seq<DiagnosticView> {
    ds.map_values(|d: Diagnostic| d@)
}

/// The expression of a top-level item that is an expression statement.
pub open spec fn item_expr(item: Item) -> Option<ExprNode> {
    match item.node {
        ItemKind::Stmt(s) => match *s {
            StmtKind::Expr(e) => Some(expr_view(e)),
            _ => None,
        },
        _ => None,
    }
}

/// What a parser produces: the tree and the diagnostics.
pub struct ParserOutput {
    pub ast: Ast,
    pub diagnostics: Vec<Diagnostic>,
}

/// Parses the tokens of one source file.
pub struct Parser<'a> {
    stream: TokenStream,
    items: Vec<Spanned<ItemKind>>,
    source_id: SourceFileId,
    diagnostics: Vec<Diagnostic>,
    source_text: &'a str,
    chars: Vec<char>,
    offsets: Vec<usize>,
}

impl<'a> Parser<'a> {
    /// The tokens being parsed.
    pub closed spec fn tokens(&self) -> Seq<Token> {
        self.stream.tokens()
    }

    /// The position in the tokens.
    pub closed spec fn pos(&self) -> int {
        self.stream.pos_spec() as int
    }

    /// The characters of the source text.
    pub closed spec fn text(&self) -> Seq<char> {
        self.chars@
    }

    /// The file being parsed.
    pub closed spec fn file(&self) -> SourceFileId {
        self.source_id
    }

    /// The diagnostics reported so far.
    pub closed spec fn diagnostic_views(&self) -> Seq<DiagnosticView> {
        diagnostic_views(self.diagnostics@)
    }

    /// The items parsed so far.
    pub closed spec fn items_spec(&self) -> Seq<Item> {
        self.items@
    }

    /// The characters and their byte offsets are those of the source text.
    pub closed spec fn wf(&self) -> bool {
        &&& self.chars@ == self.source_text@
        &&& self.offsets@.len() == self.chars@.len() + 1
        &&& forall|k: int|
            0 <= k <= self.chars@.len() ==> #[trigger] self.offsets@[k] == byte_offset(self.chars@, k)
        &&& byte_len(self.chars@) <= usize::MAX
    }

    /// A parser of the tokens of `stream`, which come from `source_text`,
    /// the text of the file `source_file_id`.
    pub fn new(stream: TokenStream, source_text: &'a str, source_file_id: SourceFileId) -> (p: Parser<'a>)
        ensures
            p.wf(),
            p.tokens() == stream.tokens(),
            p.pos() == stream.pos_spec(),
            p.text() == source_text@,
            p.file() == source_file_id,
            p.diagnostic_views() == Seq::<DiagnosticView>::empty(),
            p.items_spec() == Seq::<Item>::empty(),
    {
        let bytes = source_text.as_bytes();
        let chars = chars_of(source_text);
        proof {
            assert(bytes@.len() == bytes.len());
            assert(byte_len(chars@) <= usize::MAX);
            assert(chars@.take(0) =~= Seq::<char>::empty());
        }
        let mut offsets: Vec<usize> = Vec::new();
        offsets.push(0);
        let mut i: usize = 0;
        let mut pos: usize = 0;
        while i < chars.len()
            invariant
                i <= chars@.len(),
                byte_len(chars@) <= usize::MAX,
                pos == byte_offset(chars@, i as int),
                offsets@.len() == i + 1,
                forall|k: int| 0 <= k <= i ==> #[trigger] offsets@[k] == byte_offset(chars@, k),
            decreases chars@.len() - i,
        {
            proof {
                lemma_byte_offset_step(chars@, i as int);
                lemma_byte_offset_mono(chars@, i + 1, chars@.len() as int);
            }
            pos = pos + utf8_width(chars[i]);
            offsets.push(pos);
            i = i + 1;
        }
        let p = Parser {
            stream,
            source_text,
            items: Vec::new(),
            diagnostics: Vec::new(),
            source_id: source_file_id,
            chars,
            offsets,
        };
        assert(p.diagnostic_views() =~= Seq::<DiagnosticView>::empty());
        p
    }

    /// Parses items until the end of the tokens; a failed item is reported and
    /// followed by error recovery. Returns `None` if the parse loop would come
    /// back to the same position and repeat itself without end.
    pub fn run(self) -> (r: Option<ParserOutput>)
        requires
            self.wf(),
            parsable(self.tokens(), self.text()),
            0 <= self.pos() <= self.tokens().len(),
        ensures
            ({
                let spec = parse_items_spec(self.tokens(), self.text(), self.pos());
                &&& (r is None <==> spec is None)
                &&& (r matches Some(out) ==> {
                    let (exprs, errs) = spec->0;
                    &&& out.ast.items@.len() == self.items_spec().len() + exprs.len()
                    &&& forall|k: int| 0 <= k < self.items_spec().len() ==> #[trigger] out.ast.items@[k] == self.items_spec()[k]
                    &&& forall|k: int|
                        0 <= k < exprs.len() ==> #[trigger] item_expr(out.ast.items@[self.items_spec().len() + k]) == Some(exprs[k])
                            && out.ast.items@[self.items_spec().len() + k].span == exprs[k].span
                    &&& diagnostic_views(out.diagnostics@) == self.diagnostic_views()
                        + unexpected_token_diagnostics(self.file(), errs)
                })
            }),
    {
        let ghost toks = self.tokens();
        let ghost cs = self.text();
        let ghost file = self.file();
        let ghost start = self.pos();
        let ghost items0 = self.items@;
        let ghost diags0 = self.diagnostic_views();
        let ghost mut exprs_done: Seq<ExprNode> = Seq::empty();
        let ghost mut errs_done: Seq<(TokenKind, Span)> = Seq::empty();
        let mut parser = self;
        while !parser.stream.is_eof()
            invariant
                toks == self.tokens(),
                cs == self.text(),
                start == self.pos(),
                file == self.file(),
                items0 == self.items_spec(),
                diags0 == self.diagnostic_views(),
                parser.wf(),
                parser.tokens() == toks,
                parser.text() == cs,
                parser.file() == file,
                parsable(toks, cs),
                start <= parser.pos() <= toks.len(),
                parser.items@.len() == items0.len() + exprs_done.len(),
                forall|k: int| 0 <= k < items0.len() ==> #[trigger] parser.items@[k] == items0[k],
                forall|k: int|
                    0 <= k < exprs_done.len() ==> #[trigger] item_expr(parser.items@[items0.len() + k])
                        == Some(exprs_done[k]) && parser.items@[items0.len() + k].span == exprs_done[k].span,
                parser.diagnostic_views() == diags0 + unexpected_token_diagnostics(file, errs_done),
                parse_items_spec(toks, cs, start) == (match parse_items_spec(toks, cs, parser.pos()) {
                    None => None,
                    Some((es, rs)) => Some((exprs_done + es, errs_done + rs)),
                }),
            decreases toks.len() - parser.pos(),
        {
            let before = parser.stream.position();
            let ghost p0 = parser.pos();
            let ghost r = parse_level_spec(toks, cs, p0, 5);
            proof {
                lemma_parse_level(toks, cs, p0, 5);
            }
            match parser.parse_item() {
                Some(item) => {
                    parser.items.push(item);
                },
                None => {
                    proof {
                        lemma_recover(toks, r.pos);
                    }
                    parser.recover();
                },
            }
            let ghost next = parser.pos();
            if parser.stream.position() <= before {
                proof {
                    assert(parse_items_spec(toks, cs, p0) is None);
                    assert(parse_items_spec(toks, cs, start) is None);
                }
                return None;
            }
            proof {
                Self::lemma_diags_concat(file, errs_done, r.errors);
                let old_exprs = exprs_done;
                let old_errs = errs_done;
                match r.expr {
                    Some(e) => {
                        exprs_done = exprs_done.push(e);
                    },
                    None => {},
                }
                errs_done = errs_done + r.errors;
                match parse_items_spec(toks, cs, next) {
                    None => {},
                    Some((es, rs)) => {
                        match r.expr {
                            Some(e) => {
                                assert(old_exprs + (seq![e] + es) =~= exprs_done + es);
                            },
                            None => {},
                        }
                        assert(old_errs + (r.errors + rs) =~= errs_done + rs);
                    },
                }
            }
        }
        proof {
            assert(exprs_done + Seq::<ExprNode>::empty() =~= exprs_done);
            assert(errs_done + Seq::<(TokenKind, Span)>::empty() =~= errs_done);
        }
        Some(ParserOutput { ast: Ast::new(parser.items), diagnostics: parser.diagnostics })
    }

    /// The tokens' stream.
    pub fn stream(&self) -> (s: &TokenStream)
        ensures
            s.tokens() == self.tokens(),
            s.pos_spec() == self.pos(),
    {
        &self.stream
    }

    /// Whether the current token is of `kind`.
    pub fn check(&self, kind: TokenKind) -> (b: bool)
        ensures
            b == (0 <= self.pos() < self.tokens().len() && self.tokens()[self.pos()].kind == kind),
    {
        match self.stream.peek() {
            Some(t) => t.kind == kind,
            None => false,
        }
    }

    /// Whether the current token is a unary operator: `-`, `+` or `!`. It
    /// only looks at the token and consumes nothing; the caller consumes the
    /// operator itself.
    fn check_unary_op(&self) -> (b: bool)
        ensures
            b == (0 <= self.pos() < self.tokens().len() && crate::ast::expression::unary_op_of(
                self.tokens()[self.pos()].kind,
            ) is Some),
    {
        match self.stream.peek_kind() {
            Some(k) => k == TokenKind::Minus || k == TokenKind::Plus || k == TokenKind::Not,
            None => false,
        }
    }

    /// Consumes the current token if its kind is one of `kinds`, and says
    /// whether it did.
    pub fn try_expect(&mut self, kinds: &[TokenKind]) -> (b: bool)
        ensures
            final(self).tokens() == old(self).tokens(),
            final(self).text() == old(self).text(),
            final(self).file() == old(self).file(),
            final(self).diagnostic_views() == old(self).diagnostic_views(),
            final(self).items_spec() == old(self).items_spec(),
            final(self).wf() == old(self).wf(),
            b == (0 <= old(self).pos() < old(self).tokens().len() && kinds@.contains(
                old(self).tokens()[old(self).pos()].kind,
            )),
            b ==> final(self).pos() == old(self).pos() + 1,
            !b ==> final(self).pos() == old(self).pos(),
    {
        match self.stream.peek_kind() {
            Some(kind) => {
                let mut i: usize = 0;
                while i < kinds.len()
                    invariant
                        i <= kinds@.len(),
                        self.stream == old(self).stream,
                        self.diagnostics == old(self).diagnostics,
                        self.items == old(self).items,
                        self.chars == old(self).chars,
                        self.offsets == old(self).offsets,
                        self.source_text == old(self).source_text,
                        self.source_id == old(self).source_id,
                        0 <= old(self).pos() < old(self).tokens().len(),
                        kind == old(self).tokens()[old(self).pos()].kind,
                        forall|k: int| 0 <= k < i ==> kinds@[k] != kind,
                    decreases kinds@.len() - i,
                {
                    if kinds[i] == kind {
                        self.stream.bump();
                        return true;
                    }
                    i = i + 1;
                }
                false
            },
            None => false,
        }
    }

    /// Consumes and returns the current token if it is of `kind`; otherwise,
    /// if `emit_error`, reports that `kind` was expected where the current
    /// kind (or the end of the file, at the end of the text) was found.
    pub fn expect_bump_with_flag(&mut self, kind: TokenKind, emit_error: bool) -> (r: Option<Token>)
        requires
            old(self).wf(),
        ensures
            final(self).tokens() == old(self).tokens(),
            final(self).text() == old(self).text(),
            final(self).file() == old(self).file(),
            final(self).items_spec() == old(self).items_spec(),
            final(self).wf() == old(self).wf(),
            ({
                let toks = old(self).tokens();
                let p = old(self).pos();
                let (found, span) = if 0 <= p < toks.len() {
                    (toks[p].kind, toks[p].span)
                } else {
                    (TokenKind::Eof, Span { start: byte_len(old(self).text()) as usize, len: 1 })
                };
                if found == kind {
                    &&& (0 <= p < toks.len() ==> r == Some(toks[p]) && final(self).pos() == p + 1)
                    &&& (!(0 <= p < toks.len()) ==> r is None && final(self).pos() == p)
                    &&& final(self).diagnostic_views() == old(self).diagnostic_views()
                } else {
                    &&& r is None
                    &&& final(self).pos() == p
                    &&& final(self).diagnostic_views() == if emit_error {
                        old(self).diagnostic_views().push(
                            parse_error_diagnostic(
                                ParseError::Expected {
                                    expected: kind,
                                    found,
                                    code: codes::spec_unexpected_token(),
                                },
                                old(self).file(),
                                span,
                            ),
                        )
                    } else {
                        old(self).diagnostic_views()
                    }
                }
            }),
    {
        let (current_kind, span) = match self.stream.peek() {
            Some(tok) => (tok.kind, tok.span),
            None => {
                let bytes = self.source_text.as_bytes();
                let len = bytes.len();
                proof {
                    assert(bytes@.len() == bytes.len());
                }
                (TokenKind::Eof, Span::new(len, 1))
            },
        };
        if current_kind == kind {
            return self.stream.bump();
        }
        if emit_error {
            self.report_error(
                ParseError::Expected {
                    expected: kind,
                    found: current_kind,
                    code: codes::unexpected_token(),
                },
                span,
            );
        }
        None
    }

    /// `expect_bump_with_flag` that reports a mismatch.
    pub fn expect_bump(&mut self, kind: TokenKind) -> (r: Option<Token>)
        requires
            old(self).wf(),
        ensures
            final(self).tokens() == old(self).tokens(),
            final(self).text() == old(self).text(),
            final(self).file() == old(self).file(),
            final(self).items_spec() == old(self).items_spec(),
            final(self).wf() == old(self).wf(),
            ({
                let toks = old(self).tokens();
                let p = old(self).pos();
                let (found, span) = if 0 <= p < toks.len() {
                    (toks[p].kind, toks[p].span)
                } else {
                    (TokenKind::Eof, Span { start: byte_len(old(self).text()) as usize, len: 1 })
                };
                if found == kind {
                    &&& (0 <= p < toks.len() ==> r == Some(toks[p]) && final(self).pos() == p + 1)
                    &&& (!(0 <= p < toks.len()) ==> r is None && final(self).pos() == p)
                    &&& final(self).diagnostic_views() == old(self).diagnostic_views()
                } else {
                    &&& r is None
                    &&& final(self).pos() == p
                    &&& final(self).diagnostic_views() == old(self).diagnostic_views().push(
                        parse_error_diagnostic(
                            ParseError::Expected {
                                expected: kind,
                                found,
                                code: codes::spec_unexpected_token(),
                            },
                            old(self).file(),
                            span,
                        ),
                    )
                }
            }),
    {
        self.expect_bump_with_flag(kind, true)
    }

    /// Skips tokens up to the end, to a token that may start a statement
    /// (`let`, `import`, `type`, a number, a string, a name), or to a closing
    /// brace.
    pub fn recover(&mut self)
        ensures
            final(self).tokens() == old(self).tokens(),
            final(self).text() == old(self).text(),
            final(self).file() == old(self).file(),
            final(self).items_spec() == old(self).items_spec(),
            final(self).diagnostic_views() == old(self).diagnostic_views(),
            final(self).wf() == old(self).wf(),
            final(self).pos() == recover_spec(old(self).tokens(), old(self).pos()),
    {
        let ghost toks = self.tokens();
        let ghost p0 = self.pos();
        while !self.stream.is_eof()
            invariant
                self.tokens() == toks,
                self.text() == old(self).text(),
                self.file() == old(self).file(),
                self.items_spec() == old(self).items_spec(),
                self.diagnostic_views() == old(self).diagnostic_views(),
                self.wf() == old(self).wf(),
                p0 <= self.pos(),
                toks == old(self).tokens(),
                p0 == old(self).pos(),
                recover_spec(toks, p0) == recover_spec(toks, self.pos()),
            decreases toks.len() - self.pos(),
        {
            let kind = self.stream.peek_kind();
            match kind {
                Some(k) => {
                    if k == TokenKind::Let || k == TokenKind::Import || k == TokenKind::Type || k
                        == TokenKind::Int || k == TokenKind::Float || k == TokenKind::String || k
                        == TokenKind::Ident {
                        return ;
                    }
                    if k == TokenKind::RBrace {
                        return ;
                    }
                    self.stream.bump();
                },
                None => {
                    return ;
                },
            }
        }
    }

    /// Reports `error` at `span`.
    pub fn report_error(&mut self, error: ParseError, span: Span)
        ensures
            final(self).tokens() == old(self).tokens(),
            final(self).pos() == old(self).pos(),
            final(self).text() == old(self).text(),
            final(self).file() == old(self).file(),
            final(self).items_spec() == old(self).items_spec(),
            final(self).wf() == old(self).wf(),
            final(self).diagnostic_views() == old(self).diagnostic_views().push(
                parse_error_diagnostic(error, old(self).file(), span),
            ),
    {
        let d = map_parse_error(error, self.source_id, span);
        self.report(d);
    }

    /// Reports `diag`.
    pub fn report(&mut self, diag: Diagnostic)
        ensures
            final(self).tokens() == old(self).tokens(),
            final(self).pos() == old(self).pos(),
            final(self).text() == old(self).text(),
            final(self).file() == old(self).file(),
            final(self).items_spec() == old(self).items_spec(),
            final(self).wf() == old(self).wf(),
            final(self).diagnostic_views() == old(self).diagnostic_views().push(diag@),
    {
        let ghost d = diag@;
        self.diagnostics.push(diag);
        assert(self.diagnostic_views() =~= old(self).diagnostic_views().push(d));
    }

    /// The index of the character that starts at byte `b`.
    fn find_offset(&self, b: usize) -> (i: usize)
        requires
            self.wf(),
            exists|k: int| 0 <= k <= self.chars@.len() && byte_offset(self.chars@, k) == b,
        ensures
            i <= self.chars@.len(),
            byte_offset(self.chars@, i as int) == b,
    {
        let n = self.offsets.len();
        let mut i: usize = 0;
        while i < n
            invariant
                self.wf(),
                n == self.chars@.len() + 1,
                i <= n,
                forall|k: int| 0 <= k < i ==> byte_offset(self.chars@, k) != b,
                exists|k: int| 0 <= k <= self.chars@.len() && byte_offset(self.chars@, k) == b,
            decreases n - i,
        {
            if self.offsets[i] == b {
                return i;
            }
            i = i + 1;
        }
        proof {
            let k = choose|k: int| 0 <= k <= self.chars@.len() && byte_offset(self.chars@, k) == b;
            assert(byte_offset(self.chars@, k) != b);
        }
        0
    }

    /// The characters of the source that `span` covers.
    fn span_chars(&self, span: Span) -> (r: Vec<char>)
        requires
            self.wf(),
            aligned(self.chars@, span),
        ensures
            r@ == span_text(self.chars@, span),
    {
        let ghost cs = self.chars@;
        let ghost (a, b) = choose|a: int, b: int|
            0 <= a <= b <= cs.len() && byte_offset(cs, a) == span.start && byte_offset(cs, b)
                == span.start + span.len;
        proof {
            lemma_byte_offset_mono(cs, b, cs.len() as int);
            assert(cs.take(cs.len() as int) =~= cs);
        }
        let i = self.find_offset(span.start);
        let j = self.find_offset(span.start + span.len);
        proof {
            lemma_char_index_unique(cs, a, span.start as int);
            lemma_char_index_unique(cs, b, span.start + span.len);
            lemma_char_index_unique(cs, i as int, span.start as int);
            lemma_char_index_unique(cs, j as int, span.start + span.len);
        }
        let mut out: Vec<char> = Vec::new();
        let mut k: usize = i;
        while k < j
            invariant
                i <= k <= j <= cs.len(),
                self.chars@ == cs,
                out@ == cs.subrange(i as int, k as int),
            decreases j - k,
        {
            out.push(self.chars[k]);
            k = k + 1;
            assert(out@ =~= cs.subrange(i as int, k as int));
        }
        out
    }

    /// A literal at the current position, or a report of the unexpected token.
    fn parse_literal(&mut self) -> (r: Option<Expression>)
        requires
            old(self).wf(),
            parsable(old(self).tokens(), old(self).text()),
            0 <= old(self).pos() <= old(self).tokens().len(),
        ensures
            final(self).wf(),
            final(self).tokens() == old(self).tokens(),
            final(self).text() == old(self).text(),
            final(self).file() == old(self).file(),
            final(self).items_spec() == old(self).items_spec(),
            ({
                let p = parse_literal_spec(old(self).tokens(), old(self).text(), old(self).pos());
                &&& final(self).pos() == p.pos
                &&& (r is None <==> p.expr is None)
                &&& (r matches Some(e) ==> p.expr == Some(expr_view(e)))
                &&& final(self).diagnostic_views() == old(self).diagnostic_views()
                    + unexpected_token_diagnostics(old(self).file(), p.errors)
            }),
    {
        let ghost toks = self.tokens();
        let ghost cs = self.text();
        let (kind, span) = match self.stream.peek() {
            Some(token) => (token.kind, token.span),
            None => {
                assert(old(self).diagnostic_views() + unexpected_token_diagnostics(
                    old(self).file(),
                    Seq::empty(),
                ) =~= old(self).diagnostic_views());
                return None;
            },
        };
        let ghost p = self.pos();
        if kind == TokenKind::Int || kind == TokenKind::Float || kind == TokenKind::String || kind
            == TokenKind::Boolean {
            proof {
                assert(is_literal_kind(toks[p].kind));
                assert(aligned(cs, toks[p].span));
            }
            self.stream.bump();
            let text = self.span_chars(span);
            let lit = if kind == TokenKind::Int {
                let value = match parse_i64(text.as_slice()) {
                    Some(v) => v,
                    None => 0,
                };
                Literal::Int(value)
            } else if kind == TokenKind::Float {
                Literal::Float(string_from_chars(text.as_slice()))
            } else if kind == TokenKind::String {
                let n = text.len();
                let content = if n >= 2 && text[0] == '"' && text[n - 1] == '"' {
                    slice_subrange(text.as_slice(), 1, n - 1)
                } else {
                    text.as_slice()
                };
                proof {
                    assert(content@ == strip_quotes_spec(text@));
                }
                let unescaped = unescape(content);
                Literal::String(string_from_chars(unescaped.as_slice()))
            } else {
                let t: [char; 4] = ['t', 'r', 'u', 'e'];
                Literal::Bool(eq_word(text.as_slice(), &t))
            };
            let e = Spanned::new(ExprKind::Literal(lit), span);
            proof {
                assert(crate::ast::view::literal_view(lit) == literal_value(kind, text@));
                assert(old(self).diagnostic_views() + unexpected_token_diagnostics(
                    old(self).file(),
                    Seq::empty(),
                ) =~= old(self).diagnostic_views());
            }
            Some(e)
        } else {
            self.report_error(ParseError::UnexpectedToken { found: kind }, span);
            proof {
                assert(unexpected_token_diagnostics(old(self).file(), seq![(kind, span)])
                    =~= seq![unexpected_token_diagnostic(old(self).file(), (kind, span))]);
                assert(self.diagnostic_views() =~= old(self).diagnostic_views()
                    + unexpected_token_diagnostics(old(self).file(), seq![(kind, span)]));
            }
            None
        }
    }

    /// Whether `kind` is an operator of precedence `level`.
    fn is_level_op(level: usize, kind: TokenKind) -> (b: bool)
        requires
            1 <= level <= 5,
        ensures
            b == level_op(level as nat, kind),
    {
        if level == 1 {
            kind == TokenKind::Star || kind == TokenKind::Slash
        } else if level == 2 {
            kind == TokenKind::Plus || kind == TokenKind::Minus
        } else if level == 3 {
            kind == TokenKind::Range
        } else if level == 4 {
            kind == TokenKind::Greater || kind == TokenKind::GreaterEq || kind == TokenKind::Less
                || kind == TokenKind::LessEq
        } else {
            kind == TokenKind::EqualEqual || kind == TokenKind::BangEqual
        }
    }

    proof fn lemma_diags_concat(file: SourceFileId, a: Seq<(TokenKind, Span)>, b: Seq<(TokenKind, Span)>)
        ensures
            unexpected_token_diagnostics(file, a + b) == unexpected_token_diagnostics(file, a)
                + unexpected_token_diagnostics(file, b),
    {
        assert(unexpected_token_diagnostics(file, a + b) =~= unexpected_token_diagnostics(file, a)
            + unexpected_token_diagnostics(file, b));
    }

    /// An expression of precedence `level` (0 to 5) at the current position.
    fn parse_level(&mut self, level: usize) -> (r: Option<Expression>)
        requires
            old(self).wf(),
            parsable(old(self).tokens(), old(self).text()),
            0 <= old(self).pos() <= old(self).tokens().len(),
            level <= 5,
        ensures
            final(self).wf(),
            final(self).tokens() == old(self).tokens(),
            final(self).text() == old(self).text(),
            final(self).file() == old(self).file(),
            final(self).items_spec() == old(self).items_spec(),
            ({
                let p = parse_level_spec(old(self).tokens(), old(self).text(), old(self).pos(), level as nat);
                &&& final(self).pos() == p.pos
                &&& (r is None <==> p.expr is None)
                &&& (r matches Some(e) ==> p.expr == Some(expr_view(e)))
                &&& final(self).diagnostic_views() == old(self).diagnostic_views()
                    + unexpected_token_diagnostics(old(self).file(), p.errors)
            }),
        decreases old(self).tokens().len() - old(self).pos(), level,
    {
        let ghost toks = self.tokens();
        let ghost cs = self.text();
        let ghost file = self.file();
        let ghost p0 = self.pos();
        let ghost d0 = self.diagnostic_views();
        proof {
            lemma_parse_level(toks, cs, p0, level as nat);
        }
        if level == 0 {
            if self.check_unary_op() {
                let tok = self.stream.bump().unwrap();
                let op = match UnaryOp::from_token_kind(tok.kind) {
                    Some(op) => op,
                    None => return None,
                };
                proof {
                    lemma_parse_level(toks, cs, p0 + 1, 0);
                    assert(toks[p0].span.fits());
                }
                let inner = self.parse_level(0);
                match inner {
                    None => None,
                    Some(e) => {
                        let span = tok.span.merge(&e.span);
                        let u = Spanned::new(ExprKind::Unary(Box::new(UnaryExpr { op, expr: e })), span);
                        Some(u)
                    },
                }
            } else {
                self.parse_literal()
            }
        } else {
            let ghost l = parse_level_spec(toks, cs, p0, (level - 1) as nat);
            proof {
                lemma_parse_level(toks, cs, p0, (level - 1) as nat);
            }
            let mut lhs = match self.parse_level(level - 1) {
                Some(e) => e,
                None => return None,
            };
            let ghost mut errs = l.errors;
            loop
                invariant
                    self.wf(),
                    self.tokens() == toks,
                    self.text() == cs,
                    self.file() == file,
                    self.items_spec() == old(self).items_spec(),
                    parsable(toks, cs),
                    1 <= level <= 5,
                    p0 < self.pos() <= toks.len(),
                    p0 == old(self).pos(),
                    toks == old(self).tokens(),
                    cs == old(self).text(),
                    file == old(self).file(),
                    d0 == old(self).diagnostic_views(),
                    expr_view(lhs).span.fits(),
                    parse_level_spec(toks, cs, p0, level as nat) == parse_tail_spec(
                        toks,
                        cs,
                        expr_view(lhs),
                        self.pos(),
                        level as nat,
                        errs,
                    ),
                    self.diagnostic_views() == d0 + unexpected_token_diagnostics(file, errs),
                decreases toks.len() - self.pos(),
            {
                let ghost pos = self.pos();
                let is_op = match self.stream.peek() {
                    Some(t) => Self::is_level_op(level, t.kind),
                    None => false,
                };
                if !is_op {
                    return Some(lhs);
                }
                let op_token = self.stream.bump().unwrap();
                let op = match BinaryOp::from_token_kind(op_token.kind) {
                    Some(op) => op,
                    None => return None,
                };
                let ghost rr = parse_level_spec(toks, cs, pos + 1, (level - 1) as nat);
                proof {
                    lemma_parse_level(toks, cs, pos + 1, (level - 1) as nat);
                    Self::lemma_diags_concat(file, errs, rr.errors);
                }
                let rhs = match self.parse_level(level - 1) {
                    Some(e) => e,
                    None => return None,
                };
                let span = lhs.span.merge(&rhs.span);
                let node = Spanned::new(
                    ExprKind::Binary(Box::new(BinaryExpr { left: lhs, op, right: rhs })),
                    span,
                );
                if !(level == 1 || level == 2) {
                    return Some(node);
                }
                proof {
                    errs = errs + rr.errors;
                }
                lhs = node;
            }
        }
    }

    /// An expression at the current position.
    fn parse_expr(&mut self) -> (r: Option<Expression>)
        requires
            old(self).wf(),
            parsable(old(self).tokens(), old(self).text()),
            0 <= old(self).pos() <= old(self).tokens().len(),
        ensures
            final(self).wf(),
            final(self).tokens() == old(self).tokens(),
            final(self).text() == old(self).text(),
            final(self).file() == old(self).file(),
            final(self).items_spec() == old(self).items_spec(),
            ({
                let p = parse_level_spec(old(self).tokens(), old(self).text(), old(self).pos(), 5);
                &&& final(self).pos() == p.pos
                &&& (r is None <==> p.expr is None)
                &&& (r matches Some(e) ==> p.expr == Some(expr_view(e)))
                &&& final(self).diagnostic_views() == old(self).diagnostic_views()
                    + unexpected_token_diagnostics(old(self).file(), p.errors)
            }),
    {
        self.parse_level(5)
    }

    /// An expression statement at the current position.
    fn parse_stmt(&mut self) -> (r: Option<Spanned<StmtKind>>)
        requires
            old(self).wf(),
            parsable(old(self).tokens(), old(self).text()),
            0 <= old(self).pos() <= old(self).tokens().len(),
        ensures
            final(self).wf(),
            final(self).tokens() == old(self).tokens(),
            final(self).text() == old(self).text(),
            final(self).file() == old(self).file(),
            final(self).items_spec() == old(self).items_spec(),
            ({
                let p = parse_level_spec(old(self).tokens(), old(self).text(), old(self).pos(), 5);
                &&& final(self).pos() == p.pos
                &&& (r is None <==> p.expr is None)
                &&& (r matches Some(s) ==> (s.node matches StmtKind::Expr(e) && p.expr == Some(expr_view(e)) && s.span == e.span))
                &&& final(self).diagnostic_views() == old(self).diagnostic_views()
                    + unexpected_token_diagnostics(old(self).file(), p.errors)
            }),
    {
        let expr = match self.parse_expr() {
            Some(e) => e,
            None => return None,
        };
        let span = expr.span;
        Some(Spanned::new(StmtKind::Expr(expr), span))
    }

    /// A top-level item at the current position: an expression statement.
    fn parse_item(&mut self) -> (r: Option<Spanned<ItemKind>>)
        requires
            old(self).wf(),
            parsable(old(self).tokens(), old(self).text()),
            0 <= old(self).pos() <= old(self).tokens().len(),
        ensures
            final(self).wf(),
            final(self).tokens() == old(self).tokens(),
            final(self).text() == old(self).text(),
            final(self).file() == old(self).file(),
            final(self).items_spec() == old(self).items_spec(),
            ({
                let p = parse_level_spec(old(self).tokens(), old(self).text(), old(self).pos(), 5);
                &&& final(self).pos() == p.pos
                &&& (r is None <==> p.expr is None)
                &&& (r matches Some(item) ==> item_expr(item) == p.expr && item.span == p.expr->0.span)
                &&& final(self).diagnostic_views() == old(self).diagnostic_views()
                    + unexpected_token_diagnostics(old(self).file(), p.errors)
            }),
    {
        let stmt = match self.parse_stmt() {
            Some(s) => s,
            None => return None,
        };
        Some(Spanned::new(ItemKind::Stmt(Box::new(stmt.node)), stmt.span))
    }
}

/// Lexes and parses a source file: the syntax tree and the syntax
/// diagnostics. `None` when the parse loop would repeat itself without end,
/// or when the text is `usize::MAX` bytes long.
pub fn parse(source: &SourceFile) -> (r: Option<AnalysisResult<Ast>>)
    ensures
        ({
            let cs = source.text_spec();
            let spec = parse_items_spec(lexed_tokens(cs), cs, 0);
            &&& (r is None <==> (byte_len(cs) == usize::MAX || spec is None))
            &&& (r matches Some(res) ==> {
                let (exprs, errs) = spec->0;
                &&& res.value.items@.len() == exprs.len()
                &&& forall|k: int|
                    0 <= k < exprs.len() ==> #[trigger] item_expr(res.value.items@[k]) == Some(exprs[k])
                        && res.value.items@[k].span == exprs[k].span
                &&& res.diagnostics@ == unexpected_token_diagnostics(source.id_spec(), errs)
            })
        }),
{
    let text = source.text();
    let bytes = text.as_bytes();
    proof {
        assert(bytes@.len() == bytes.len());
    }
    if bytes.len() == usize::MAX {
        return None;
    }
    let tokens = lex(source);
    proof {
        lemma_lexed_tokens_parsable(text@);
    }
    let stream = TokenStream::new(tokens.value);
    let parser = Parser::new(stream, text, source.id());
    match parser.run() {
        None => None,
        Some(output) => {
            let diagnostics = Diagnostics::new(output.diagnostics);
            proof {
                let (exprs, errs) = parse_items_spec(lexed_tokens(text@), text@, 0)->0;
                let expected = unexpected_token_diagnostics(source.id_spec(), errs);
                assert(Seq::<DiagnosticView>::empty() + expected =~= expected);
                assert(diagnostics@ == diagnostic_views(output.diagnostics@));
                assert(diagnostics@ == expected);
                assert forall|k: int| 0 <= k < exprs.len() implies #[trigger] item_expr(output.ast.items@[k]) == Some(exprs[k])
                    && output.ast.items@[k].span == exprs[k].span by {
                    assert(output.ast.items@[0 + k] == output.ast.items@[k]);
                }
            }
            Some(AnalysisResult { value: Arc::new(output.ast), diagnostics: Arc::new(diagnostics) })
        },
    }
}

} // verus!
