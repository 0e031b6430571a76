//! Stable diagnostic codes.
use vstd::prelude::*;

use crate::diagnostic::DiagnosticCode;

verus! {

/// Lexer: a malformed number literal.
pub open spec fn spec_invalid_number() -> DiagnosticCode {
    DiagnosticCode("L001")
}

/// Lexer: a malformed number literal.
#[verifier::when_used_as_spec(spec_invalid_number)]
pub fn invalid_number() -> (c: DiagnosticCode)
    ensures
        c == spec_invalid_number(),
{
    DiagnosticCode("L001")
}

/// Lexer: a string literal without its closing quote.
pub open spec fn spec_unterminated_string() -> DiagnosticCode {
    DiagnosticCode("L002")
}

/// Lexer: a string literal without its closing quote.
#[verifier::when_used_as_spec(spec_unterminated_string)]
pub fn unterminated_string() -> (c: DiagnosticCode)
    ensures
        c == spec_unterminated_string(),
{
    DiagnosticCode("L002")
}

/// Lexer: a character that starts no token.
pub open spec fn spec_unexpected_char() -> DiagnosticCode {
    DiagnosticCode("L003")
}

/// Lexer: a character that starts no token.
#[verifier::when_used_as_spec(spec_unexpected_char)]
pub fn unexpected_char() -> (c: DiagnosticCode)
    ensures
        c == spec_unexpected_char(),
{
    DiagnosticCode("L003")
}

/// Parser: a token that does not fit the grammar here.
pub open spec fn spec_unexpected_token() -> DiagnosticCode {
    DiagnosticCode("P001")
}

/// Parser: a token that does not fit the grammar here.
#[verifier::when_used_as_spec(spec_unexpected_token)]
pub fn unexpected_token() -> (c: DiagnosticCode)
    ensures
        c == spec_unexpected_token(),
{
    DiagnosticCode("P001")
}

/// Parser: an expression was expected.
pub open spec fn spec_expected_expression() -> DiagnosticCode {
    DiagnosticCode("P002")
}

/// Parser: an expression was expected.
#[verifier::when_used_as_spec(spec_expected_expression)]
pub fn expected_expression() -> (c: DiagnosticCode)
    ensures
        c == spec_expected_expression(),
{
    DiagnosticCode("P002")
}

/// Parser: a malformed function parameter.
pub open spec fn spec_invalid_param() -> DiagnosticCode {
    DiagnosticCode("P003")
}

/// Parser: a malformed function parameter.
#[verifier::when_used_as_spec(spec_invalid_param)]
pub fn invalid_param() -> (c: DiagnosticCode)
    ensures
        c == spec_invalid_param(),
{
    DiagnosticCode("P003")
}

/// Parser: a syntax error described by its message alone.
pub open spec fn spec_generic_message() -> DiagnosticCode {
    DiagnosticCode("P404")
}

/// Parser: a syntax error described by its message alone.
#[verifier::when_used_as_spec(spec_generic_message)]
pub fn generic_message() -> (c: DiagnosticCode)
    ensures
        c == spec_generic_message(),
{
    DiagnosticCode("P404")
}

/// Lowering: a tuple expression, which the language does not have.
pub open spec fn spec_tuple_expression() -> DiagnosticCode {
    DiagnosticCode("H001")
}

/// Lowering: a tuple expression, which the language does not have.
#[verifier::when_used_as_spec(spec_tuple_expression)]
pub fn tuple_expression() -> (c: DiagnosticCode)
    ensures
        c == spec_tuple_expression(),
{
    DiagnosticCode("H001")
}

/// Lowering: an assignment to something that cannot be assigned.
pub open spec fn spec_invalid_assign_target() -> DiagnosticCode {
    DiagnosticCode("H002")
}

/// Lowering: an assignment to something that cannot be assigned.
#[verifier::when_used_as_spec(spec_invalid_assign_target)]
pub fn invalid_assign_target() -> (c: DiagnosticCode)
    ensures
        c == spec_invalid_assign_target(),
{
    DiagnosticCode("H002")
}

/// Lowering: a name that no scope defines.
pub open spec fn spec_symbol_not_found() -> DiagnosticCode {
    DiagnosticCode("H003")
}

/// Lowering: a name that no scope defines.
#[verifier::when_used_as_spec(spec_symbol_not_found)]
pub fn symbol_not_found() -> (c: DiagnosticCode)
    ensures
        c == spec_symbol_not_found(),
{
    DiagnosticCode("H003")
}

} // verus!
