//! Errors that the parser reports.
use vstd::prelude::*;

use crate::diagnostic::DiagnosticCode;
use crate::token::TokenKind;

verus! {

/// A syntax error.
#[derive(Debug)]
pub enum ParseError {
    /// A token of kind `expected` was required, `found` was there.
    Expected { expected: TokenKind, found: TokenKind, code: DiagnosticCode },
    /// An expression was required, a token of kind `found` was there.
    ExpectedExpression { found: TokenKind },
    /// A token of kind `found` fits nowhere here.
    UnexpectedToken { found: TokenKind },
    /// A syntax error described by its message alone.
    Message(String),
    /// A malformed function parameter.
    InvalidParam,
}

} // verus!
