use std::path::PathBuf;
use std::sync::Arc;

use iris::ast::expression::{BinaryOp, ExprKind, Literal, UnaryOp};
use iris::ast::item::ItemKind;
use iris::ast::statement::StmtKind;
use iris::ast::Expression;
use iris::diagnostic::DiagnosticCode;
use iris::lexer::Lexer;
use iris::parser::error::ParseError;
use iris::parser::stream::TokenStream;
use iris::parser::diagnostic::map_parse_error;
use iris::parser::{parse, Parser};
use iris::source::{SourceFile, SourceFileId};
use iris::span::Span;
use iris::token::TokenKind;

fn file(text: &str) -> SourceFile {
    SourceFile::new(SourceFileId::new(1), PathBuf::from("t.iris"), text.to_string())
}

fn expr_of(kind: &ItemKind) -> &Expression {
    match kind {
        ItemKind::Stmt(stmt) => match stmt.as_ref() {
            StmtKind::Expr(e) => e,
            _ => panic!("not an expression statement"),
        },
        _ => panic!("not a statement"),
    }
}

fn int_of(e: &Expression) -> i64 {
    match &e.node {
        ExprKind::Literal(Literal::Int(v)) => *v,
        _ => panic!("not an integer literal"),
    }
}

#[test]
fn precedence_of_product_over_sum() {
    let res = parse(&file("1 + 2 * 3")).unwrap();
    assert_eq!(res.value.items.len(), 1);
    assert!(res.diagnostics.is_empty());
    let e = expr_of(&res.value.items[0].node);
    assert_eq!(e.span, Span::new(0, 9));
    match &e.node {
        ExprKind::Binary(b) => {
            assert_eq!(b.op, BinaryOp::Add);
            assert_eq!(int_of(&b.left), 1);
            match &b.right.node {
                ExprKind::Binary(m) => {
                    assert_eq!(m.op, BinaryOp::Mul);
                    assert_eq!(int_of(&m.left), 2);
                    assert_eq!(int_of(&m.right), 3);
                    assert_eq!(b.right.span, Span::new(4, 5));
                }
                _ => panic!("expected a product"),
            }
        }
        _ => panic!("expected a sum"),
    }
}

#[test]
fn sums_chain_to_the_left() {
    let res = parse(&file("8 - 3 - 2")).unwrap();
    let e = expr_of(&res.value.items[0].node);
    match &e.node {
        ExprKind::Binary(b) => {
            assert_eq!(b.op, BinaryOp::Sub);
            assert_eq!(int_of(&b.right), 2);
            match &b.left.node {
                ExprKind::Binary(l) => {
                    assert_eq!(int_of(&l.left), 8);
                    assert_eq!(int_of(&l.right), 3);
                }
                _ => panic!("expected a difference"),
            }
        }
        _ => panic!("expected a difference"),
    }
}

#[test]
fn comparison_does_not_chain() {
    // `1 < 2` is one item; the second `<` cannot start an expression.
    let res = parse(&file("1 < 2 < 3")).unwrap();
    assert_eq!(res.value.items.len(), 2);
    assert_eq!(res.diagnostics.len(), 1);
    let d = res.diagnostics.get(0);
    assert_eq!(d.message, "unexpected token `Less`");
    assert_eq!(d.primary_span, Some(Span::new(6, 1)));
    assert_eq!(int_of(expr_of(&res.value.items[1].node)), 3);
}

#[test]
fn unary_and_equality() {
    let res = parse(&file("-1 == !true")).unwrap();
    let e = expr_of(&res.value.items[0].node);
    match &e.node {
        ExprKind::Binary(b) => {
            assert_eq!(b.op, BinaryOp::Eq);
            match &b.left.node {
                ExprKind::Unary(u) => {
                    assert_eq!(u.op, UnaryOp::Neg);
                    assert_eq!(int_of(&u.expr), 1);
                }
                _ => panic!("expected a negation"),
            }
            match &b.right.node {
                ExprKind::Unary(u) => {
                    assert_eq!(u.op, UnaryOp::Not);
                    assert!(matches!(u.expr.node, ExprKind::Literal(Literal::Bool(true))));
                }
                _ => panic!("expected a not"),
            }
        }
        _ => panic!("expected an equality"),
    }
    assert_eq!(e.span, Span::new(0, 11));
}

#[test]
fn literals_of_each_kind() {
    let res = parse(&file("\"a\\tb\" 2.5 false")).unwrap();
    assert_eq!(res.value.items.len(), 3);
    match &expr_of(&res.value.items[0].node).node {
        ExprKind::Literal(Literal::String(s)) => assert_eq!(s, "a\tb"),
        _ => panic!("expected a string"),
    }
    match &expr_of(&res.value.items[1].node).node {
        ExprKind::Binary(_) => panic!("unexpected"),
        ExprKind::Literal(Literal::Float(t)) => assert_eq!(t, "2.5"),
        _ => panic!("expected a float"),
    }
    match &expr_of(&res.value.items[2].node).node {
        ExprKind::Literal(Literal::Bool(b)) => assert!(!*b),
        _ => panic!("expected a boolean"),
    }
}

#[test]
fn range_expression() {
    let res = parse(&file("1..4")).unwrap();
    match &expr_of(&res.value.items[0].node).node {
        ExprKind::Binary(b) => assert_eq!(b.op, BinaryOp::Range),
        _ => panic!("expected a range"),
    }
}

#[test]
fn integer_too_large_becomes_zero() {
    let res = parse(&file("99999999999999999999")).unwrap();
    assert_eq!(int_of(expr_of(&res.value.items[0].node)), 0);
    let res = parse(&file("9223372036854775807")).unwrap();
    assert_eq!(int_of(expr_of(&res.value.items[0].node)), i64::MAX);
}

#[test]
fn semicolons_are_skipped_after_an_error() {
    let res = parse(&file("1; 2")).unwrap();
    assert_eq!(res.value.items.len(), 2);
    assert_eq!(res.diagnostics.len(), 1);
    let d = res.diagnostics.get(0);
    assert_eq!(d.message, "unexpected token `Semicolon`");
    assert_eq!(d.code.unwrap().0, "P001");
    assert_eq!(d.file, Some(SourceFileId::new(1)));
}

#[test]
fn empty_file_has_no_items() {
    let res = parse(&file("")).unwrap();
    assert!(res.value.items.is_empty());
    assert!(res.diagnostics.is_empty());
}

#[test]
fn parsing_that_cannot_progress_gives_none() {
    assert!(parse(&file("x")).is_none());
    assert!(parse(&file("let")).is_none());
    assert!(parse(&file("}")).is_none());
}

#[test]
fn parser_run_over_lexed_tokens() {
    let text = "4 * 5";
    let out = Lexer::new(SourceFileId::new(2), text).run();
    let stream = TokenStream::new(Arc::new(out.tokens));
    let parser = Parser::new(stream, text, SourceFileId::new(2));
    let res = parser.run().unwrap();
    assert_eq!(res.ast.items.len(), 1);
    assert!(res.diagnostics.is_empty());
}

#[test]
fn parse_error_diagnostics() {
    let d = map_parse_error(
        ParseError::Expected { expected: TokenKind::RParen, found: TokenKind::Comma, code: DiagnosticCode("P001") },
        SourceFileId::new(5),
        Span::new(3, 1),
    );
    assert_eq!(d.message, "expected `RParen`, found `Comma`");
    assert_eq!(d.labels.len(), 2);
    assert_eq!(d.labels[0].message.as_deref(), Some("expected this token"));
    assert!(!d.labels[0].is_primary);
    assert!(d.labels[1].is_primary);
    assert_eq!(d.file, Some(SourceFileId::new(5)));
    let d = map_parse_error(ParseError::ExpectedExpression { found: TokenKind::Eof }, SourceFileId::new(5), Span::new(0, 1));
    assert_eq!(d.message, "expected expression, found `Eof`");
    assert_eq!(d.code.unwrap().0, "P002");
    let d = map_parse_error(ParseError::Message("odd".to_string()), SourceFileId::new(5), Span::new(0, 1));
    assert_eq!(d.message, "odd");
    assert_eq!(d.code.unwrap().0, "P404");
    assert_eq!(d.labels[0].message.as_deref(), Some("syntax error"));
    let d = map_parse_error(ParseError::InvalidParam, SourceFileId::new(5), Span::new(0, 1));
    assert_eq!(d.message, "invalid param");
    assert_eq!(d.code.unwrap().0, "P003");
}
