//! Turning syntax errors into diagnostics.
use vstd::prelude::*;
use vstd::string::StringExecFns;

use crate::diagnostic::{bare_diagnostic, codes, Diagnostic, DiagnosticCode, DiagnosticSeverity, DiagnosticView};
use crate::parser::error::ParseError;
use crate::source::SourceFileId;
use crate::span::Span;
use crate::token::kind_name;

verus! {

/// The code, the message and the label text of the diagnostic for a syntax error.
pub open spec fn parse_error_parts(error: ParseError) -> (DiagnosticCode, Seq<char>, Seq<char>) {
    match error {
        ParseError::Expected { expected, found, code } => (
            code,
            "expected `"@ + kind_name(expected) + "`, found `"@ + kind_name(found) + "`"@,
            "expected this token"@,
        ),
        ParseError::ExpectedExpression { found } => (
            codes::spec_expected_expression(),
            "expected expression, found `"@ + kind_name(found) + "`"@,
            "expected start of expression here"@,
        ),
        ParseError::UnexpectedToken { found } => (
            codes::spec_unexpected_token(),
            "unexpected token `"@ + kind_name(found) + "`"@,
            "unexpected"@,
        ),
        ParseError::Message(msg) => (codes::spec_generic_message(), msg@, "syntax error"@),
        ParseError::InvalidParam => (
            codes::spec_invalid_param(),
            "invalid param"@,
            "unexpected function param"@,
        ),
    }
}

/// The diagnostic for a syntax error in `file` at `span`: an error with the
/// error's message, a label with the error's label text at `span`, the
/// error's code, `span` as primary span, in `file`.
pub open spec fn parse_error_diagnostic(error: ParseError, file: SourceFileId, span: Span) -> DiagnosticView {
    let (code, message, label) = parse_error_parts(error);
    bare_diagnostic(DiagnosticSeverity::Error, message).with_label(span, label).with_code(
        code,
    ).with_primary_span(span).with_file(file)
}

/// The diagnostic that reports `error` in `file_id` at `span`.
pub fn map_parse_error(error: ParseError, file_id: SourceFileId, span: Span) -> (d: Diagnostic)
    ensures
        d@ == parse_error_diagnostic(error, file_id, span),
{
    let ghost e = error;
    let (code, message, label) = match error {
        ParseError::Expected { expected, found, code } => {
            let mut m = "expected `".to_owned();
            m.append(expected.name());
            m.append("`, found `");
            m.append(found.name());
            m.append("`");
            (code, m, "expected this token".to_owned())
        },
        ParseError::ExpectedExpression { found } => {
            let mut m = "expected expression, found `".to_owned();
            m.append(found.name());
            m.append("`");
            (codes::expected_expression(), m, "expected start of expression here".to_owned())
        },
        ParseError::UnexpectedToken { found } => {
            let mut m = "unexpected token `".to_owned();
            m.append(found.name());
            m.append("`");
            (codes::unexpected_token(), m, "unexpected".to_owned())
        },
        ParseError::Message(msg) => (codes::generic_message(), msg, "syntax error".to_owned()),
        ParseError::InvalidParam => (
            codes::invalid_param(),
            "invalid param".to_owned(),
            "unexpected function param".to_owned(),
        ),
    };
    Diagnostic::error(message).with_label(span, label).with_code(code).with_primary_span(
        span,
    ).with_file(file_id)
}

} // verus!
