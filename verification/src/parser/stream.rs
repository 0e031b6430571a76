//! A cursor over a token sequence.
use vstd::prelude::*;
use vstd::string::StringExecFns;

use std::sync::Arc;

use crate::diagnostic::{bare_diagnostic, Diagnostic, DiagnosticSeverity, DiagnosticView};
use crate::token::{kind_name, Token, TokenKind};

verus! {

/// The tokens of a file and a current position among them.
#[derive(Debug)]
pub struct TokenStream {
    tokens: Arc<Vec<Token>>,
    pos: usize,
}

/// A saved position of a token stream.
#[derive(Debug, Copy, Clone)]
pub struct Checkpoint(usize);

impl Checkpoint {
    /// The saved position.
    pub closed spec fn pos(self) -> usize {
        self.0
    }
}

/// Whether the stream of `toks` at `pos` is at its end: past the last token
/// or at an end-of-file token.
pub open spec fn at_eof(toks: Seq<Token>, pos: int) -> bool {
    pos >= toks.len() || toks[pos].kind == TokenKind::Eof
}

/// The message of a failed expectation of `kind` where `found` was found
/// (`None` at the end of the tokens).
pub open spec fn expect_message(kind: TokenKind, found: Option<TokenKind>) -> Seq<char> {
    match found {
        Some(f) => "expected token "@ + kind_name(kind) + ", found "@ + kind_name(f),
        None => "expected token "@ + kind_name(kind) + ", found end of file"@,
    }
}

impl TokenStream {
    /// The tokens.
    pub closed spec fn tokens(&self) -> Seq<Token> {
        self.tokens@
    }

    /// The current position.
    pub closed spec fn pos_spec(&self) -> usize {
        self.pos
    }

    /// A stream over `tokens`, at the first token.
    pub fn new(tokens: Arc<Vec<Token>>) -> (s: TokenStream)
        ensures
            s.tokens() == tokens@,
            s.pos_spec() == 0,
    {
        TokenStream { tokens, pos: 0 }
    }

    /// The number of tokens.
    pub fn len(&self) -> (n: usize)
        ensures
            n == self.tokens().len(),
    {
        self.tokens.len()
    }

    /// The current position.
    pub fn position(&self) -> (p: usize)
        ensures
            p == self.pos_spec(),
    {
        self.pos
    }

    /// Whether the stream is past its last token or at an end-of-file token.
    pub fn is_eof(&self) -> (b: bool)
        ensures
            b == at_eof(self.tokens(), self.pos_spec() as int),
    {
        if self.pos >= self.tokens.len() {
            return true;
        }
        self.tokens[self.pos].kind == TokenKind::Eof
    }

    /// The current token, if any.
    pub fn peek(&self) -> (t: Option<&Token>)
        ensures
            self.pos_spec() < self.tokens().len() ==> t == Some(&self.tokens()[self.pos_spec() as int]),
            self.pos_spec() >= self.tokens().len() ==> t is None,
    {
        if self.pos < self.tokens.len() {
            Some(&self.tokens[self.pos])
        } else {
            None
        }
    }

    /// The token `n` places after the current one, if any.
    pub fn peek_n(&self, n: usize) -> (t: Option<&Token>)
        requires
            self.pos_spec() + n <= usize::MAX,
        ensures
            self.pos_spec() + n < self.tokens().len() ==> t == Some(
                &self.tokens()[self.pos_spec() + n],
            ),
            self.pos_spec() + n >= self.tokens().len() ==> t is None,
    {
        let i = self.pos + n;
        if i < self.tokens.len() {
            Some(&self.tokens[i])
        } else {
            None
        }
    }

    /// The kind of the current token, if any.
    pub fn peek_kind(&self) -> (k: Option<TokenKind>)
        ensures
            self.pos_spec() < self.tokens().len() ==> k == Some(
                self.tokens()[self.pos_spec() as int].kind,
            ),
            self.pos_spec() >= self.tokens().len() ==> k is None,
    {
        if self.pos < self.tokens.len() {
            Some(self.tokens[self.pos].kind)
        } else {
            None
        }
    }

    /// Consumes and returns the current token; does nothing past the end.
    pub fn bump(&mut self) -> (t: Option<Token>)
        ensures
            final(self).tokens() == old(self).tokens(),
            old(self).pos_spec() < old(self).tokens().len() ==> t == Some(
                old(self).tokens()[old(self).pos_spec() as int],
            ) && final(self).pos_spec() == old(self).pos_spec() + 1,
            old(self).pos_spec() >= old(self).tokens().len() ==> t is None
                && final(self).pos_spec() == old(self).pos_spec(),
    {
        if self.pos < self.tokens.len() {
            let t = self.tokens[self.pos];
            self.pos = self.pos + 1;
            Some(t)
        } else {
            None
        }
    }

    /// The current position, saved.
    pub fn checkpoint(&self) -> (c: Checkpoint)
        ensures
            c.pos() == self.pos_spec(),
    {
        Checkpoint(self.pos)
    }

    /// Goes back (or forward) to a saved position.
    pub fn rewind(&mut self, checkpoint: Checkpoint)
        ensures
            final(self).tokens() == old(self).tokens(),
            final(self).pos_spec() == checkpoint.pos(),
    {
        self.pos = checkpoint.0;
    }

    /// Consumes the current token if it is of `kind`; otherwise reports what
    /// was expected and what was found, at the found token's span (with no
    /// span at the end of the tokens), and consumes nothing.
    pub fn expect(&mut self, kind: TokenKind) -> (r: Result<Token, Diagnostic>)
        ensures
            final(self).tokens() == old(self).tokens(),
            ({
                let toks = old(self).tokens();
                let p = old(self).pos_spec() as int;
                if p < toks.len() && toks[p].kind == kind {
                    &&& r == Ok::<Token, Diagnostic>(toks[p])
                    &&& final(self).pos_spec() == p + 1
                } else {
                    &&& final(self).pos_spec() == p
                    &&& r matches Err(d) && d@ == (if p < toks.len() {
                        bare_diagnostic(
                            DiagnosticSeverity::Error,
                            expect_message(kind, Some(toks[p].kind)),
                        ).with_primary_span(toks[p].span)
                    } else {
                        bare_diagnostic(DiagnosticSeverity::Error, expect_message(kind, None))
                    })
                }
            }),
    {
        if self.pos < self.tokens.len() {
            let tok = self.tokens[self.pos];
            if tok.kind == kind {
                self.pos = self.pos + 1;
                return Ok(tok);
            }
            let mut m = "expected token ".to_owned();
            m.append(kind.name());
            m.append(", found ");
            m.append(tok.kind.name());
            Err(Diagnostic::error(m).with_primary_span(tok.span))
        } else {
            let mut m = "expected token ".to_owned();
            m.append(kind.name());
            m.append(", found end of file");
            Err(Diagnostic::error(m))
        }
    }
}

} // verus!
