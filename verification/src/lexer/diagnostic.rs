//! Turning lexical errors into diagnostics.
use vstd::prelude::*;
use vstd::string::StringExecFns;

use crate::diagnostic::{bare_diagnostic, codes, Diagnostic, DiagnosticCode, DiagnosticSeverity, DiagnosticView};
use crate::lexer::error::LexError;
use crate::source::SourceFileId;
use crate::span::Span;
use crate::text::string_of_char;

verus! {

/// The message of the diagnostic for a lexical error.
pub open spec fn lex_error_message(error: LexError) -> Seq<char> {
    match error {
        LexError::InvalidNumber => "invalid number literal"@,
        LexError::UnterminatedString => "unterminated string literal"@,
        LexError::UnexpectedChar(c) => "unexpected character `"@ + seq![c] + "`"@,
    }
}

/// The code of the diagnostic for a lexical error.
pub open spec fn lex_error_code(error: LexError) -> DiagnosticCode {
    match error {
        LexError::InvalidNumber => codes::spec_invalid_number(),
        LexError::UnterminatedString => codes::spec_unterminated_string(),
        LexError::UnexpectedChar(_) => codes::spec_unexpected_char(),
    }
}

/// The diagnostic for a lexical error in `file` at `span`: an error with the
/// error's message and code, in `file`, whose primary span is `span`.
pub open spec fn lex_error_diagnostic(error: LexError, file: SourceFileId, span: Span) -> DiagnosticView {
    bare_diagnostic(DiagnosticSeverity::Error, lex_error_message(error)).with_code(
        lex_error_code(error),
    ).with_file(file).with_primary_span(span)
}

/// The diagnostic that reports `error` in `file` at `span`.
pub fn map_lex_error(error: LexError, file: SourceFileId, span: Span) -> (d: Diagnostic)
    ensures
        d@ == lex_error_diagnostic(error, file, span),
{
    match error {
        LexError::InvalidNumber => Diagnostic::error("invalid number literal".to_owned()).with_code(
            codes::invalid_number(),
        ).with_file(file).with_primary_span(span),
        LexError::UnterminatedString => Diagnostic::error(
            "unterminated string literal".to_owned(),
        ).with_code(codes::unterminated_string()).with_file(file).with_primary_span(span),
        LexError::UnexpectedChar(c) => {
            let mut message = "unexpected character `".to_owned();
            let shown = string_of_char(c);
            message.append(shown.as_str());
            message.append("`");
            Diagnostic::error(message).with_code(codes::unexpected_char()).with_file(
                file,
            ).with_primary_span(span)
        },
    }
}

} // verus!
