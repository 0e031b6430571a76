//! Turning lowering errors into diagnostics.
use vstd::prelude::*;
use vstd::string::StringExecFns;

use crate::diagnostic::{bare_diagnostic, clone_string, codes, Diagnostic, DiagnosticCode, DiagnosticSeverity, DiagnosticView};
use crate::lowering::error::HirError;
use crate::source::SourceFileId;
use crate::span::Span;

verus! {

/// The message, code, label text and notes of the diagnostic for a lowering
/// error.
pub open spec fn hir_error_parts(error: HirError) -> (DiagnosticCode, Seq<char>, Seq<char>, Seq<Seq<char>>) {
    match error {
        HirError::TupleExpression => (
            codes::spec_tuple_expression(),
            "Iris does not support tuples"@,
            "unexpected tuple expression"@,
            seq!["comma is only allowed in function argument lists"@, "consider using an array instead"@],
        ),
        HirError::InvalidAssignTarget => (
            codes::spec_invalid_assign_target(),
            "invalid assignment target"@,
            "unexpected assign target"@,
            Seq::empty(),
        ),
        HirError::SymbolNotFound(symbol) => (
            codes::spec_symbol_not_found(),
            "symbol `"@ + symbol@ + "` not found in this scope"@,
            "unexpected symbol"@,
            Seq::empty(),
        ),
    }
}

/// The diagnostic `d` with the notes `notes` added in order.
pub open spec fn with_notes(d: DiagnosticView, notes: Seq<Seq<char>>) -> DiagnosticView
    decreases notes.len(),
{
    if notes.len() == 0 {
        d
    } else {
        with_notes(d, notes.drop_last()).with_note(notes.last())
    }
}

/// The diagnostic for a lowering error in `file` at `span`: an error with
/// the error's message and code, a secondary label at `span`, the file, the
/// primary span `span`, and the error's notes.
pub open spec fn hir_error_diagnostic(error: HirError, file: SourceFileId, span: Span) -> DiagnosticView {
    let (code, message, label, notes) = hir_error_parts(error);
    with_notes(
        bare_diagnostic(DiagnosticSeverity::Error, message).with_code(code).with_label(span, label).with_file(
            file,
        ).with_primary_span(span),
        notes,
    )
}

/// The diagnostic that reports `error` in `file` at `span`.
pub fn map_hir_error(error: HirError, file: SourceFileId, span: Span) -> (d: Diagnostic)
    ensures
        d@ == hir_error_diagnostic(error, file, span),
{
    let ghost parts = hir_error_parts(error);
    let (code, message, label, notes): (DiagnosticCode, String, String, Vec<String>) = match error {
        HirError::TupleExpression => {
            let mut notes: Vec<String> = Vec::new();
            notes.push("comma is only allowed in function argument lists".to_owned());
            notes.push("consider using an array instead".to_owned());
            (
                codes::tuple_expression(),
                "Iris does not support tuples".to_owned(),
                "unexpected tuple expression".to_owned(),
                notes,
            )
        },
        HirError::InvalidAssignTarget => (
            codes::invalid_assign_target(),
            "invalid assignment target".to_owned(),
            "unexpected assign target".to_owned(),
            Vec::new(),
        ),
        HirError::SymbolNotFound(symbol) => {
            let mut message = "symbol `".to_owned();
            message.append(symbol.as_str());
            message.append("` not found in this scope");
            (codes::symbol_not_found(), message, "unexpected symbol".to_owned(), Vec::new())
        },
    };
    proof {
        reveal_strlit("comma is only allowed in function argument lists");
        reveal_strlit("consider using an array instead");
        assert(code == parts.0);
        assert(message@ == parts.1);
        assert(label@ == parts.2);
        assert(notes@.map_values(|n: String| n@) =~= parts.3);
    }
    let mut diag = Diagnostic::error(message).with_code(code).with_label(span, label).with_file(
        file,
    ).with_primary_span(span);
    let ghost base = diag@;
    let n = notes.len();
    let mut i: usize = 0;
    proof {
        assert(parts.3.take(0) =~= Seq::<Seq<char>>::empty());
    }
    while i < n
        invariant
            n == notes@.len(),
            notes@.map_values(|n: String| n@) == parts.3,
            i <= n,
            diag@ == with_notes(base, parts.3.take(i as int)),
        decreases n - i,
    {
        let note = clone_string(&notes[i]);
        proof {
            assert(parts.3.take(i + 1).drop_last() =~= parts.3.take(i as int));
            assert(note@ == parts.3[i as int]);
        }
        diag = diag.with_note(note);
        i = i + 1;
    }
    proof {
        assert(parts.3.take(n as int) =~= parts.3);
    }
    diag
}

} // verus!
