use std::path::PathBuf;
use std::sync::Arc;

use iris::ast::expression::{AssignmentOp, BinaryOp, UnaryOp};
use iris::ast::item::{AstTypeModifier, TypeName};
use iris::ast::statement::TypeInfoAst;
use iris::ast::{Ast, Spanned};
use iris::diagnostic::Diagnostics;
use iris::driver::{CompilerDriver, CompilerOptions};
use iris::parser::literal::{parse_i64, unescape};
use iris::parser::stream::TokenStream;
use iris::query::{AnalysisResult, QueryState};
use iris::span::Span;
use iris::token::{Token, TokenKind};

fn chars(s: &str) -> Vec<char> {
    s.chars().collect()
}

#[test]
fn span_end_and_merge() {
    let a = Span::new(2, 3);
    let b = Span::new(8, 2);
    assert_eq!(a.end(), 5);
    assert_eq!(a.merge(&b), Span::new(2, 8));
    assert_eq!(b.merge(&a), Span::new(2, 8));
    assert_eq!(a.merge(&a), a);
    let inner = Span::new(3, 1);
    assert_eq!(a.merge(&inner), a);
}

#[test]
fn type_info_flags() {
    let t = TypeInfoAst::new(vec![]);
    assert_eq!(t.flags, 0);
    assert!(!t.is_error());
    let t = t.with_error();
    assert!(t.is_error());
    let t = t.with_flag(4);
    assert_eq!(t.flags, 5);
    let t = t.without_flag(1);
    assert!(!t.is_error());
    assert_eq!(t.flags, 4);
    let e = TypeInfoAst::error(vec![Spanned::new("int".to_string(), Span::new(0, 3))]);
    assert!(e.is_error());
    assert_eq!(e.path.len(), 1);
}

#[test]
fn operators_from_tokens() {
    assert_eq!(BinaryOp::from_token_kind(TokenKind::Plus), Some(BinaryOp::Add));
    assert_eq!(BinaryOp::from_token_kind(TokenKind::Pipe), Some(BinaryOp::Pipe));
    assert_eq!(BinaryOp::from_token_kind(TokenKind::Range), Some(BinaryOp::Range));
    assert_eq!(BinaryOp::from_token_kind(TokenKind::Percent), None);
    assert_eq!(BinaryOp::from_token_kind(TokenKind::PipeGt), None);
    assert_eq!(BinaryOp::from_token_kind(TokenKind::Catch), None);
    assert_eq!(BinaryOp::from_token_kind(TokenKind::Let), None);
    assert_eq!(UnaryOp::from_token_kind(TokenKind::Minus), Some(UnaryOp::Neg));
    assert_eq!(UnaryOp::from_token_kind(TokenKind::Not), Some(UnaryOp::Not));
    assert_eq!(UnaryOp::from_token_kind(TokenKind::Star), None);
    assert_eq!(AssignmentOp::from_token(TokenKind::PlusEqual), Some(AssignmentOp::AddAssign));
    assert_eq!(AssignmentOp::from_token(TokenKind::Equal), Some(AssignmentOp::Assign));
    assert_eq!(AssignmentOp::from_token(TokenKind::EqualEqual), None);
    assert_eq!(AstTypeModifier::from_token_kind(TokenKind::Optional), Some(AstTypeModifier::Optional));
    assert_eq!(AstTypeModifier::from_token_kind(TokenKind::Not), Some(AstTypeModifier::Fallible));
    assert_eq!(AstTypeModifier::from_token_kind(TokenKind::Int), None);
    assert_eq!(TypeName("int".to_string()).inner(), "int");
}

#[test]
fn integer_literals() {
    assert_eq!(parse_i64(&chars("0")), Some(0));
    assert_eq!(parse_i64(&chars("+17")), Some(17));
    assert_eq!(parse_i64(&chars("-9223372036854775808")), Some(i64::MIN));
    assert_eq!(parse_i64(&chars("9223372036854775808")), None);
    assert_eq!(parse_i64(&chars("")), None);
    assert_eq!(parse_i64(&chars("-")), None);
    assert_eq!(parse_i64(&chars("1a")), None);
    assert_eq!(parse_i64(&chars("007")), Some(7));
}

#[test]
fn string_escapes() {
    assert_eq!(unescape(&chars("a\\nb")), chars("a\nb"));
    assert_eq!(unescape(&chars("\\t\\r\\\\\\\"")), chars("\t\r\\\""));
    assert_eq!(unescape(&chars("\\q")), chars("\\q"));
    assert_eq!(unescape(&chars("end\\")), chars("end\\"));
    assert_eq!(unescape(&chars("")), chars(""));
}

#[test]
fn token_stream_moves() {
    let toks = vec![
        Token::new(TokenKind::Int, Span::new(0, 1)),
        Token::new(TokenKind::Plus, Span::new(2, 1)),
        Token::new(TokenKind::Eof, Span::new(3, 1)),
    ];
    let mut s = TokenStream::new(Arc::new(toks));
    assert_eq!(s.len(), 3);
    assert_eq!(s.position(), 0);
    assert_eq!(s.peek_kind(), Some(TokenKind::Int));
    assert_eq!(s.peek_n(1).map(|t| t.kind), Some(TokenKind::Plus));
    assert!(s.peek_n(5).is_none());
    let cp = s.checkpoint();
    assert_eq!(s.bump().map(|t| t.kind), Some(TokenKind::Int));
    assert!(s.expect(TokenKind::Plus).is_ok());
    assert!(s.is_eof());
    let err = s.expect(TokenKind::Int).unwrap_err();
    assert_eq!(err.message, "expected token Int, found Eof");
    assert_eq!(err.primary_span, Some(Span::new(3, 1)));
    assert!(err.code.is_none());
    assert_eq!(s.position(), 2);
    s.rewind(cp);
    assert_eq!(s.position(), 0);
    assert!(!s.is_eof());
    let mut s2 = TokenStream::new(Arc::new(vec![Token::new(TokenKind::Int, Span::new(0, 1))]));
    let err = s2.expect(TokenKind::Comma).unwrap_err();
    assert_eq!(err.message, "expected token Comma, found Int");
    assert_eq!(s2.position(), 0);
    assert_eq!(s2.bump().map(|t| t.kind), Some(TokenKind::Int));
    assert!(s2.bump().is_none());
    let err = s2.expect(TokenKind::Comma).unwrap_err();
    assert_eq!(err.message, "expected token Comma, found end of file");
    assert!(err.primary_span.is_none());
}

#[test]
fn query_states() {
    let s: QueryState<u32> = QueryState::new();
    assert!(s.poll().is_none());
    let res = AnalysisResult { value: Arc::new(5u32), diagnostics: Arc::new(Diagnostics::new(vec![])) };
    let s = QueryState::complete(res);
    match s.poll() {
        Some(Ok(r)) => assert_eq!(*r.value, 5),
        _ => panic!("expected a result"),
    }
    let s: QueryState<u32> = QueryState::fail("boom".to_string());
    match s.poll() {
        Some(Err(m)) => assert_eq!(m, "boom"),
        _ => panic!("expected a failure"),
    }
}

#[test]
fn driver_keeps_options() {
    let d = CompilerDriver::new(CompilerOptions::new(PathBuf::from("root.iris")));
    assert_eq!(d.options().root_file_path(), &PathBuf::from("root.iris"));
    let ast = Ast::new(vec![]);
    assert!(ast.items.is_empty());
}
