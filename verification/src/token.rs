//! Lexical token definitions.
use vstd::prelude::*;

use crate::span::Span;

verus! {

/// A lexical category produced by the lexer.
///
/// A kind classifies source text without attaching semantic meaning;
/// the text of a token is retrieved through its span.
#[derive(Debug, Clone, Copy, PartialEq, Eq, Structural)]
pub enum TokenKind {
    // Identifiers and literals
    Ident,
    Underscore,
    Int,
    Float,
    String,
    Boolean,
    // Module system
    Module,
    Import,
    As,
    Pub,
    // Declarations
    Type,
    Enum,
    Interface,
    Fn,
    Task,
    Caps,
    Impl,
    // Bindings
    Let,
    Mut,
    Const,
    // Control flow
    If,
    Else,
    Match,
    For,
    While,
    In,
    // Jumps
    Return,
    Break,
    Continue,
    // Error handling
    Try,
    Catch,
    Fail,
    Defer,
    // Logical operators in keyword form
    And,
    Or,
    // Other keywords
    Using,
    // Arithmetic operators
    Plus,
    Minus,
    Star,
    Slash,
    Percent,
    // Compound assignment
    PlusEqual,
    MinusEqual,
    StarEqual,
    SlashEqual,
    PercentEqual,
    BitwiseAndEqual,
    BitwiseOrEqual,
    LShiftEqual,
    RShiftEqual,
    // Comparison and assignment
    Equal,
    EqualEqual,
    BangEqual,
    Greater,
    GreaterEq,
    Less,
    LessEq,
    Not,
    // Bitwise and shifts
    BitwiseAnd,
    Pipe,
    LShift,
    RShift,
    // Arrows, pipes and ranges
    Arrow,
    FatArrow,
    PipeGt,
    PipePipe,
    Range,
    // Type modifiers
    Optional,
    FallibleOptional,
    // Delimiters
    LParen,
    RParen,
    LBrace,
    RBrace,
    LBracket,
    RBracket,
    // Punctuation
    Dot,
    Comma,
    Colon,
    Semicolon,
    Hash,
    At,
    // Special
    Eof,
}

/// The name of a token kind, as it appears in messages.
pub open spec fn kind_name(k: TokenKind) -> Seq<char> {
    match k {
        TokenKind::Ident => "Ident"@,
        TokenKind::Underscore => "Underscore"@,
        TokenKind::Int => "Int"@,
        TokenKind::Float => "Float"@,
        TokenKind::String => "String"@,
        TokenKind::Boolean => "Boolean"@,
        TokenKind::Module => "Module"@,
        TokenKind::Import => "Import"@,
        TokenKind::As => "As"@,
        TokenKind::Pub => "Pub"@,
        TokenKind::Type => "Type"@,
        TokenKind::Enum => "Enum"@,
        TokenKind::Interface => "Interface"@,
        TokenKind::Fn => "Fn"@,
        TokenKind::Task => "Task"@,
        TokenKind::Caps => "Caps"@,
        TokenKind::Impl => "Impl"@,
        TokenKind::Let => "Let"@,
        TokenKind::Mut => "Mut"@,
        TokenKind::Const => "Const"@,
        TokenKind::If => "If"@,
        TokenKind::Else => "Else"@,
        TokenKind::Match => "Match"@,
        TokenKind::For => "For"@,
        TokenKind::While => "While"@,
        TokenKind::In => "In"@,
        TokenKind::Return => "Return"@,
        TokenKind::Break => "Break"@,
        TokenKind::Continue => "Continue"@,
        TokenKind::Try => "Try"@,
        TokenKind::Catch => "Catch"@,
        TokenKind::Fail => "Fail"@,
        TokenKind::Defer => "Defer"@,
        TokenKind::And => "And"@,
        TokenKind::Or => "Or"@,
        TokenKind::Using => "Using"@,
        TokenKind::Plus => "Plus"@,
        TokenKind::Minus => "Minus"@,
        TokenKind::Star => "Star"@,
        TokenKind::Slash => "Slash"@,
        TokenKind::Percent => "Percent"@,
        TokenKind::PlusEqual => "PlusEqual"@,
        TokenKind::MinusEqual => "MinusEqual"@,
        TokenKind::StarEqual => "StarEqual"@,
        TokenKind::SlashEqual => "SlashEqual"@,
        TokenKind::PercentEqual => "PercentEqual"@,
        TokenKind::BitwiseAndEqual => "BitwiseAndEqual"@,
        TokenKind::BitwiseOrEqual => "BitwiseOrEqual"@,
        TokenKind::LShiftEqual => "LShiftEqual"@,
        TokenKind::RShiftEqual => "RShiftEqual"@,
        TokenKind::Equal => "Equal"@,
        TokenKind::EqualEqual => "EqualEqual"@,
        TokenKind::BangEqual => "BangEqual"@,
        TokenKind::Greater => "Greater"@,
        TokenKind::GreaterEq => "GreaterEq"@,
        TokenKind::Less => "Less"@,
        TokenKind::LessEq => "LessEq"@,
        TokenKind::Not => "Not"@,
        TokenKind::BitwiseAnd => "BitwiseAnd"@,
        TokenKind::Pipe => "Pipe"@,
        TokenKind::LShift => "LShift"@,
        TokenKind::RShift => "RShift"@,
        TokenKind::Arrow => "Arrow"@,
        TokenKind::FatArrow => "FatArrow"@,
        TokenKind::PipeGt => "PipeGt"@,
        TokenKind::PipePipe => "PipePipe"@,
        TokenKind::Range => "Range"@,
        TokenKind::Optional => "Optional"@,
        TokenKind::FallibleOptional => "FallibleOptional"@,
        TokenKind::LParen => "LParen"@,
        TokenKind::RParen => "RParen"@,
        TokenKind::LBrace => "LBrace"@,
        TokenKind::RBrace => "RBrace"@,
        TokenKind::LBracket => "LBracket"@,
        TokenKind::RBracket => "RBracket"@,
        TokenKind::Dot => "Dot"@,
        TokenKind::Comma => "Comma"@,
        TokenKind::Colon => "Colon"@,
        TokenKind::Semicolon => "Semicolon"@,
        TokenKind::Hash => "Hash"@,
        TokenKind::At => "At"@,
        TokenKind::Eof => "Eof"@,
    }
}

impl TokenKind {
    /// The name of this kind, as it appears in messages.
    pub fn name(self) -> (s: &'static str)
        ensures
            s@ == kind_name(self),
    {
        match self {
            TokenKind::Ident => "Ident",
            TokenKind::Underscore => "Underscore",
            TokenKind::Int => "Int",
            TokenKind::Float => "Float",
            TokenKind::String => "String",
            TokenKind::Boolean => "Boolean",
            TokenKind::Module => "Module",
            TokenKind::Import => "Import",
            TokenKind::As => "As",
            TokenKind::Pub => "Pub",
            TokenKind::Type => "Type",
            TokenKind::Enum => "Enum",
            TokenKind::Interface => "Interface",
            TokenKind::Fn => "Fn",
            TokenKind::Task => "Task",
            TokenKind::Caps => "Caps",
            TokenKind::Impl => "Impl",
            TokenKind::Let => "Let",
            TokenKind::Mut => "Mut",
            TokenKind::Const => "Const",
            TokenKind::If => "If",
            TokenKind::Else => "Else",
            TokenKind::Match => "Match",
            TokenKind::For => "For",
            TokenKind::While => "While",
            TokenKind::In => "In",
            TokenKind::Return => "Return",
            TokenKind::Break => "Break",
            TokenKind::Continue => "Continue",
            TokenKind::Try => "Try",
            TokenKind::Catch => "Catch",
            TokenKind::Fail => "Fail",
            TokenKind::Defer => "Defer",
            TokenKind::And => "And",
            TokenKind::Or => "Or",
            TokenKind::Using => "Using",
            TokenKind::Plus => "Plus",
            TokenKind::Minus => "Minus",
            TokenKind::Star => "Star",
            TokenKind::Slash => "Slash",
            TokenKind::Percent => "Percent",
            TokenKind::PlusEqual => "PlusEqual",
            TokenKind::MinusEqual => "MinusEqual",
            TokenKind::StarEqual => "StarEqual",
            TokenKind::SlashEqual => "SlashEqual",
            TokenKind::PercentEqual => "PercentEqual",
            TokenKind::BitwiseAndEqual => "BitwiseAndEqual",
            TokenKind::BitwiseOrEqual => "BitwiseOrEqual",
            TokenKind::LShiftEqual => "LShiftEqual",
            TokenKind::RShiftEqual => "RShiftEqual",
            TokenKind::Equal => "Equal",
            TokenKind::EqualEqual => "EqualEqual",
            TokenKind::BangEqual => "BangEqual",
            TokenKind::Greater => "Greater",
            TokenKind::GreaterEq => "GreaterEq",
            TokenKind::Less => "Less",
            TokenKind::LessEq => "LessEq",
            TokenKind::Not => "Not",
            TokenKind::BitwiseAnd => "BitwiseAnd",
            TokenKind::Pipe => "Pipe",
            TokenKind::LShift => "LShift",
            TokenKind::RShift => "RShift",
            TokenKind::Arrow => "Arrow",
            TokenKind::FatArrow => "FatArrow",
            TokenKind::PipeGt => "PipeGt",
            TokenKind::PipePipe => "PipePipe",
            TokenKind::Range => "Range",
            TokenKind::Optional => "Optional",
            TokenKind::FallibleOptional => "FallibleOptional",
            TokenKind::LParen => "LParen",
            TokenKind::RParen => "RParen",
            TokenKind::LBrace => "LBrace",
            TokenKind::RBrace => "RBrace",
            TokenKind::LBracket => "LBracket",
            TokenKind::RBracket => "RBracket",
            TokenKind::Dot => "Dot",
            TokenKind::Comma => "Comma",
            TokenKind::Colon => "Colon",
            TokenKind::Semicolon => "Semicolon",
            TokenKind::Hash => "Hash",
            TokenKind::At => "At",
            TokenKind::Eof => "Eof",
        }
    }
}

/// A lexical token with its source location.
#[derive(Debug, Clone, Copy, PartialEq, Eq, Structural)]
pub struct Token {
    /// The token category.
    pub kind: TokenKind,
    /// The bytes of the source that the token covers.
    pub span: Span,
}

impl Token {
    /// Creates a token with the given kind and span.
    pub fn new(kind: TokenKind, span: Span) -> (t: Token)
        ensures
            t.kind == kind,
            t.span == span,
    {
        Token { kind, span }
    }

    /// Whether this token is of the given kind.
    pub fn is(&self, kind: TokenKind) -> (b: bool)
        ensures
            b == (self.kind == kind),
    {
        self.kind == kind
    }

    /// Whether this token is the end-of-file marker.
    pub fn is_eof(&self) -> (b: bool)
        ensures
            b == (self.kind == TokenKind::Eof),
    {
        self.kind == TokenKind::Eof
    }
}

} // verus!
