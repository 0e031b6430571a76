use std::path::PathBuf;

use iris::diagnostic::DiagnosticSeverity;
use iris::lexer::{lex, Lexer};
use iris::source::{SourceFile, SourceFileId};
use iris::span::Span;
use iris::token::{Token, TokenKind};

fn kinds(tokens: &[Token]) -> Vec<TokenKind> {
    tokens.iter().map(|t| t.kind).collect()
}

fn run(text: &str) -> iris::lexer::LexOutput {
    Lexer::new(SourceFileId::new(7), text).run()
}

#[test]
fn lexes_let_binding() {
    let out = run("let x = 42;");
    assert_eq!(
        kinds(&out.tokens),
        vec![
            TokenKind::Let,
            TokenKind::Ident,
            TokenKind::Equal,
            TokenKind::Int,
            TokenKind::Semicolon,
            TokenKind::Eof
        ]
    );
    assert_eq!(out.tokens[0].span, Span::new(0, 3));
    assert_eq!(out.tokens[1].span, Span::new(4, 1));
    assert_eq!(out.tokens[3].span, Span::new(8, 2));
    assert_eq!(out.tokens[5].span, Span::new(11, 1));
    assert!(out.diagnostics.is_empty());
}

#[test]
fn empty_text_gives_only_eof() {
    let out = run("");
    assert_eq!(out.tokens.len(), 1);
    assert_eq!(out.tokens[0].kind, TokenKind::Eof);
    assert_eq!(out.tokens[0].span, Span::new(0, 1));
}

#[test]
fn keywords_and_booleans() {
    let out = run("import as pub fn if else true false _ _x and or");
    assert_eq!(
        kinds(&out.tokens),
        vec![
            TokenKind::Import,
            TokenKind::As,
            TokenKind::Pub,
            TokenKind::Fn,
            TokenKind::If,
            TokenKind::Else,
            TokenKind::Boolean,
            TokenKind::Boolean,
            TokenKind::Underscore,
            TokenKind::Ident,
            TokenKind::And,
            TokenKind::Or,
            TokenKind::Eof
        ]
    );
}

#[test]
fn numbers_int_and_float() {
    let out = run("12 3.25 7. 1..2");
    assert_eq!(
        kinds(&out.tokens),
        vec![
            TokenKind::Int,
            TokenKind::Float,
            TokenKind::Int,
            TokenKind::Dot,
            TokenKind::Int,
            TokenKind::Range,
            TokenKind::Int,
            TokenKind::Eof
        ]
    );
    assert_eq!(out.tokens[1].span, Span::new(3, 4));
}

#[test]
fn operators_longest_match() {
    let out = run(">>= >> >= > <<= << <= < |> || |= | => == = != !? ! -> -= - += + *= * /= / %= % &= & .. .");
    assert_eq!(
        kinds(&out.tokens),
        vec![
            TokenKind::RShiftEqual,
            TokenKind::RShift,
            TokenKind::GreaterEq,
            TokenKind::Greater,
            TokenKind::LShiftEqual,
            TokenKind::LShift,
            TokenKind::LessEq,
            TokenKind::Less,
            TokenKind::PipeGt,
            TokenKind::PipePipe,
            TokenKind::BitwiseOrEqual,
            TokenKind::Pipe,
            TokenKind::FatArrow,
            TokenKind::EqualEqual,
            TokenKind::Equal,
            TokenKind::BangEqual,
            TokenKind::FallibleOptional,
            TokenKind::Not,
            TokenKind::Arrow,
            TokenKind::MinusEqual,
            TokenKind::Minus,
            TokenKind::PlusEqual,
            TokenKind::Plus,
            TokenKind::StarEqual,
            TokenKind::Star,
            TokenKind::SlashEqual,
            TokenKind::Slash,
            TokenKind::PercentEqual,
            TokenKind::Percent,
            TokenKind::BitwiseAndEqual,
            TokenKind::BitwiseAnd,
            TokenKind::Range,
            TokenKind::Dot,
            TokenKind::Eof
        ]
    );
}

#[test]
fn delimiters_and_punctuation() {
    let out = run("(){}[],:;#@?");
    assert_eq!(
        kinds(&out.tokens),
        vec![
            TokenKind::LParen,
            TokenKind::RParen,
            TokenKind::LBrace,
            TokenKind::RBrace,
            TokenKind::LBracket,
            TokenKind::RBracket,
            TokenKind::Comma,
            TokenKind::Colon,
            TokenKind::Semicolon,
            TokenKind::Hash,
            TokenKind::At,
            TokenKind::Optional,
            TokenKind::Eof
        ]
    );
}

#[test]
fn line_comment_is_skipped() {
    let out = run("1 // two three\n4");
    assert_eq!(kinds(&out.tokens), vec![TokenKind::Int, TokenKind::Int, TokenKind::Eof]);
    assert_eq!(out.tokens[1].span, Span::new(15, 1));
}

#[test]
fn string_with_escape() {
    let out = run("\"a\\\"b\" x");
    assert_eq!(kinds(&out.tokens), vec![TokenKind::String, TokenKind::Ident, TokenKind::Eof]);
    assert_eq!(out.tokens[0].span, Span::new(0, 6));
}

#[test]
fn unterminated_string_reports_error() {
    let out = run("x \"abc");
    assert_eq!(kinds(&out.tokens), vec![TokenKind::Ident, TokenKind::Eof]);
    assert_eq!(out.diagnostics.len(), 1);
    let d = &out.diagnostics[0];
    assert_eq!(d.message, "unterminated string literal");
    assert_eq!(d.code.unwrap().0, "L002");
    assert_eq!(d.severity, DiagnosticSeverity::Error);
    assert_eq!(d.file, Some(SourceFileId::new(7)));
    assert_eq!(d.primary_span, Some(Span::new(2, 4)));
}

#[test]
fn unexpected_char_reports_error_and_continues() {
    let out = run("a $ b");
    assert_eq!(kinds(&out.tokens), vec![TokenKind::Ident, TokenKind::Ident, TokenKind::Eof]);
    assert_eq!(out.diagnostics.len(), 1);
    assert_eq!(out.diagnostics[0].message, "unexpected character `$`");
    assert_eq!(out.diagnostics[0].code.unwrap().0, "L003");
    assert_eq!(out.diagnostics[0].primary_span, Some(Span::new(2, 1)));
}

#[test]
fn multibyte_characters_count_bytes() {
    let out = run("é x");
    assert_eq!(kinds(&out.tokens), vec![TokenKind::Ident, TokenKind::Eof]);
    assert_eq!(out.diagnostics[0].message, "unexpected character `é`");
    assert_eq!(out.diagnostics[0].primary_span, Some(Span::new(0, 2)));
    assert_eq!(out.tokens[0].span, Span::new(3, 1));
    assert_eq!(out.tokens[1].span, Span::new(4, 1));
}

#[test]
fn unicode_whitespace_is_skipped() {
    let out = run("a\u{00A0}b\tc\r\n");
    assert_eq!(
        kinds(&out.tokens),
        vec![TokenKind::Ident, TokenKind::Ident, TokenKind::Ident, TokenKind::Eof]
    );
    assert_eq!(out.tokens[1].span, Span::new(3, 1));
}

#[test]
fn lex_of_source_file() {
    let file = SourceFile::new(SourceFileId::new(3), PathBuf::from("main.iris"), "1 + @".to_string());
    let res = lex(&file);
    assert_eq!(kinds(&res.value), vec![TokenKind::Int, TokenKind::Plus, TokenKind::At, TokenKind::Eof]);
    assert!(res.diagnostics.is_empty());
    let file = SourceFile::new(SourceFileId::new(3), PathBuf::from("main.iris"), "1 ~".to_string());
    let res = lex(&file);
    assert_eq!(res.diagnostics.len(), 1);
    assert_eq!(res.diagnostics.get(0).file, Some(SourceFileId::new(3)));
}

#[test]
fn token_helpers() {
    let t = Token::new(TokenKind::Eof, Span::new(4, 1));
    assert!(t.is_eof());
    assert!(t.is(TokenKind::Eof));
    assert!(!t.is(TokenKind::Int));
    assert_eq!(TokenKind::PipeGt.name(), "PipeGt");
    assert_eq!(TokenKind::Ident.name(), "Ident");
}

#[test]
fn one_step_then_the_rest() {
    let mut l = Lexer::new(SourceFileId::new(7), "ab 1");
    l.lex_next_token();
    let out = l.run();
    assert_eq!(kinds(&out.tokens), vec![TokenKind::Ident, TokenKind::Int, TokenKind::Eof]);
}
