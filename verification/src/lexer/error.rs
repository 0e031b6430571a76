//! Errors that the lexer reports.
use vstd::prelude::*;

verus! {

/// A lexical error.
#[derive(Debug, Clone, Copy, PartialEq, Eq, Structural)]
pub enum LexError {
    /// A malformed number literal.
    InvalidNumber,
    /// A string literal that the text ends inside of.
    UnterminatedString,
    /// A character that starts no token.
    UnexpectedChar(char),
}

} // verus!
