use std::path::PathBuf;

use iris::reporting::snippet_layout;
use iris::source::{SourceFile, SourceFileId};
use iris::span::Span;

fn file(text: &str) -> SourceFile {
    SourceFile::new(SourceFileId::new(1), PathBuf::from("r.iris"), text.to_string())
}

#[test]
fn layout_of_a_span_on_a_middle_line() {
    let f = file("let x = 1;\n  foo  \t\nbar");
    let s = snippet_layout(&f, Span::new(13, 3));
    assert_eq!(s.line_number, 2);
    assert_eq!(s.column, 3);
    assert_eq!(s.line_text, "  foo");
    assert_eq!(s.marker_len, 3);
}

#[test]
fn empty_span_has_one_marker() {
    let f = file("abc");
    let s = snippet_layout(&f, Span::new(1, 0));
    assert_eq!(s.line_number, 1);
    assert_eq!(s.column, 2);
    assert_eq!(s.line_text, "abc");
    assert_eq!(s.marker_len, 1);
}

#[test]
fn layout_at_end_of_text_and_multibyte() {
    let f = file("é\nxy");
    let s = snippet_layout(&f, Span::new(5, 1));
    assert_eq!(s.line_number, 2);
    assert_eq!(s.column, 3);
    assert_eq!(s.line_text, "xy");
    let s = snippet_layout(&f, Span::new(0, 2));
    assert_eq!(s.line_text, "é");
    assert_eq!(s.column, 1);
}
