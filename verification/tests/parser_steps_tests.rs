use std::sync::Arc;

use iris::diagnostic::Diagnostic;
use iris::lexer::Lexer;
use iris::parser::error::ParseError;
use iris::parser::stream::TokenStream;
use iris::parser::Parser;
use iris::source::SourceFileId;
use iris::span::Span;
use iris::token::TokenKind;

fn parser_for(text: &str) -> Parser<'_> {
    let out = Lexer::new(SourceFileId::new(3), text).run();
    Parser::new(TokenStream::new(Arc::new(out.tokens)), text, SourceFileId::new(3))
}

#[test]
fn check_and_try_expect() {
    let mut p = parser_for("( 1 )");
    assert!(p.check(TokenKind::LParen));
    assert!(!p.check(TokenKind::Int));
    assert!(!p.try_expect(&[TokenKind::Int, TokenKind::RParen]));
    assert_eq!(p.stream().position(), 0);
    assert!(p.try_expect(&[TokenKind::Int, TokenKind::LParen]));
    assert_eq!(p.stream().position(), 1);
    assert!(p.check(TokenKind::Int));
}

#[test]
fn expect_bump_reports_mismatch() {
    let mut p = parser_for("1 ,");
    let t = p.expect_bump(TokenKind::Int).unwrap();
    assert_eq!(t.kind, TokenKind::Int);
    assert!(p.expect_bump(TokenKind::RParen).is_none());
    assert_eq!(p.stream().position(), 1);
    assert!(p.expect_bump_with_flag(TokenKind::Colon, false).is_none());
    let t = p.expect_bump_with_flag(TokenKind::Comma, false).unwrap();
    assert_eq!(t.span, Span::new(2, 1));
    let out = p.run().unwrap();
    assert_eq!(out.diagnostics.len(), 1);
    assert_eq!(out.diagnostics[0].message, "expected `RParen`, found `Comma`");
    assert_eq!(out.diagnostics[0].code.unwrap().0, "P001");
    assert_eq!(out.diagnostics[0].primary_span, Some(Span::new(2, 1)));
}

#[test]
fn expect_past_the_end_reports_eof_at_text_end() {
    let text = "7";
    let mut p = Parser::new(TokenStream::new(Arc::new(vec![])), text, SourceFileId::new(3));
    assert!(p.expect_bump(TokenKind::Int).is_none());
    let out = p.run().unwrap();
    assert_eq!(out.diagnostics[0].message, "expected `Int`, found `Eof`");
    assert_eq!(out.diagnostics[0].primary_span, Some(Span::new(1, 1)));
}

#[test]
fn recover_stops_at_statement_starts() {
    let mut p = parser_for("+ * ; let");
    p.recover();
    assert_eq!(p.stream().position(), 3);
    assert!(p.check(TokenKind::Let));
    let mut p = parser_for(") ] 5");
    p.recover();
    assert!(p.check(TokenKind::Int));
    let mut p = parser_for(", }");
    p.recover();
    assert!(p.check(TokenKind::RBrace));
}

#[test]
fn reported_diagnostics_are_kept_in_order() {
    let mut p = parser_for("");
    p.report_error(ParseError::InvalidParam, Span::new(0, 1));
    p.report(Diagnostic::note("later".to_string()));
    let out = p.run().unwrap();
    assert_eq!(out.diagnostics.len(), 2);
    assert_eq!(out.diagnostics[0].message, "invalid param");
    assert_eq!(out.diagnostics[1].message, "later");
}
