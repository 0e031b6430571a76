use iris::diagnostic::{Diagnostic, DiagnosticCode, DiagnosticSeverity, Diagnostics};
use iris::lexer::diagnostic::map_lex_error;
use iris::lexer::error::LexError;
use iris::lowering::diagnostic::map_hir_error;
use iris::lowering::error::HirError;
use iris::source::SourceFileId;
use iris::span::Span;

#[test]
fn builders_set_each_part() {
    let d = Diagnostic::warning("careful".to_string())
        .with_code(DiagnosticCode("W1"))
        .with_file(SourceFileId::new(2))
        .with_label(Span::new(1, 2), "here".to_string())
        .with_primary_span(Span::new(4, 1))
        .with_note("see docs".to_string());
    assert_eq!(d.severity, DiagnosticSeverity::Warning);
    assert_eq!(d.message, "careful");
    assert_eq!(d.code.unwrap().0, "W1");
    assert_eq!(d.file, Some(SourceFileId::new(2)));
    assert_eq!(d.primary_span, Some(Span::new(4, 1)));
    assert_eq!(d.labels.len(), 2);
    assert_eq!(d.labels[0].span, Span::new(1, 2));
    assert_eq!(d.labels[0].message.as_deref(), Some("here"));
    assert!(!d.labels[0].is_primary);
    assert_eq!(d.labels[1].span, Span::new(4, 1));
    assert_eq!(d.labels[1].message, None);
    assert!(d.labels[1].is_primary);
    assert_eq!(d.notes, vec!["see docs".to_string()]);
}

#[test]
fn severities() {
    assert_eq!(Diagnostic::error("e".to_string()).severity, DiagnosticSeverity::Error);
    assert_eq!(Diagnostic::note("n".to_string()).severity, DiagnosticSeverity::Note);
    let d = Diagnostic::error("e".to_string());
    assert!(d.code.is_none() && d.file.is_none() && d.primary_span.is_none());
    assert!(d.labels.is_empty() && d.notes.is_empty());
}

#[test]
fn collection_operations() {
    let mut ds = Diagnostics::new(vec![]);
    assert!(ds.is_empty());
    assert_eq!(ds.len(), 0);
    ds.push(Diagnostic::error("a".to_string()));
    assert_eq!(ds.len(), 1);
    let other = Diagnostics::new(vec![Diagnostic::error("b".to_string()), Diagnostic::note("c".to_string())]);
    ds.extend(&other);
    assert_eq!(ds.len(), 3);
    assert_eq!(ds.get(0).message, "a");
    assert_eq!(ds.get(1).message, "b");
    assert_eq!(ds.get(2).message, "c");
    assert_eq!(other.len(), 2);
    let single = Diagnostics::single(Diagnostic::error("x".to_string()));
    assert_eq!(single.len(), 1);
    assert!(!single.is_empty());
}

#[test]
fn lex_error_diagnostics() {
    let d = map_lex_error(LexError::InvalidNumber, SourceFileId::new(1), Span::new(0, 3));
    assert_eq!(d.message, "invalid number literal");
    assert_eq!(d.code.unwrap().0, "L001");
    assert_eq!(d.primary_span, Some(Span::new(0, 3)));
    assert_eq!(d.labels.len(), 1);
    let d = map_lex_error(LexError::UnexpectedChar('~'), SourceFileId::new(1), Span::new(0, 1));
    assert_eq!(d.message, "unexpected character `~`");
}

#[test]
fn hir_error_diagnostics() {
    let d = map_hir_error(HirError::TupleExpression, SourceFileId::new(9), Span::new(2, 3));
    assert_eq!(d.message, "Iris does not support tuples");
    assert_eq!(d.code.unwrap().0, "H001");
    assert_eq!(d.file, Some(SourceFileId::new(9)));
    assert_eq!(d.primary_span, Some(Span::new(2, 3)));
    assert_eq!(d.labels.len(), 2);
    assert_eq!(d.labels[0].message.as_deref(), Some("unexpected tuple expression"));
    assert!(d.labels[1].is_primary);
    assert_eq!(
        d.notes,
        vec![
            "comma is only allowed in function argument lists".to_string(),
            "consider using an array instead".to_string()
        ]
    );
    let d = map_hir_error(HirError::InvalidAssignTarget, SourceFileId::new(9), Span::new(0, 1));
    assert_eq!(d.message, "invalid assignment target");
    assert_eq!(d.code.unwrap().0, "H002");
    assert!(d.notes.is_empty());
    let d = map_hir_error(HirError::SymbolNotFound("foo".to_string()), SourceFileId::new(9), Span::new(0, 1));
    assert_eq!(d.message, "symbol `foo` not found in this scope");
    assert_eq!(d.code.unwrap().0, "H003");
    assert_eq!(d.labels[0].message.as_deref(), Some("unexpected symbol"));
}

#[test]
fn walking_diagnostics_in_order() {
    let ds = Diagnostics::new(vec![Diagnostic::error("one".to_string()), Diagnostic::warning("two".to_string())]);
    let messages: Vec<&str> = ds.as_slice().iter().map(|d| d.message.as_str()).collect();
    assert_eq!(messages, vec!["one", "two"]);
}
