//! Expressions.
use vstd::prelude::*;

use crate::ast::item::AstTypeInfo;
use crate::ast::{Expression, Spanned, Statement};
use crate::token::TokenKind;

verus! {

/// The kinds of expressions of the language.
#[derive(Debug)]
pub enum ExprKind {
    /// A literal value: an integer, a float, a string or a boolean.
    Literal(Literal),
    /// A name.
    Ident(Spanned<String>),
    /// A binary operation, such as `a + b` or `a |> b`.
    Binary(Box<BinaryExpr>),
    /// A unary operation, such as `-x` or `!flag`.
    Unary(Box<UnaryExpr>),
    /// A call, such as `f(a, b)`.
    Call(Box<CallExpr>),
    /// A list literal, such as `[1, 2, 3]`.
    List(Vec<Spanned<ExprKind>>),
    /// A conditional expression.
    If(Box<IfExpr>),
    /// A parenthesized expression.
    Grouping(Box<Expression>),
    /// An anonymous function.
    Lambda(Box<LambdaExpr>),
    /// An assignment, such as `a += 1`.
    Assign(Box<AssignmentExpr>),
    /// A member access, such as `a.b`.
    Member(Box<MemberExpr>),
}

/// A literal value.
///
/// A float literal keeps the digits as written; turning them into a
/// floating-point number is left to the consumer of the tree.
#[derive(Debug, Clone)]
pub enum Literal {
    /// A 64-bit signed integer.
    Int(i64),
    /// A floating-point literal, as written in the source.
    Float(String),
    /// A string literal, with its escapes resolved.
    String(String),
    /// `true` or `false`.
    Bool(bool),
}

/// An assignment `assignee op value`.
#[derive(Debug)]
pub struct AssignmentExpr {
    pub assignee: Expression,
    pub op: AssignmentOp,
    pub value: Expression,
}

/// A member access `object.member`.
#[derive(Debug)]
pub struct MemberExpr {
    pub object: Expression,
    pub member: Spanned<String>,
}

/// A parameter: a name and an optional type.
#[derive(Debug)]
pub struct Param {
    pub name: Spanned<String>,
    pub kind: Option<Spanned<AstTypeInfo>>,
}

/// An anonymous function.
#[derive(Debug)]
pub struct LambdaExpr {
    pub params: Vec<Param>,
    pub body: Statement,
}

/// A binary operation with two operands.
#[derive(Debug)]
pub struct BinaryExpr {
    pub left: Spanned<ExprKind>,
    pub op: BinaryOp,
    pub right: Spanned<ExprKind>,
}

/// Assignment operators.
#[derive(Debug, Clone, Copy, PartialEq, Eq, Structural)]
pub enum AssignmentOp {
    /// `=`
    Assign,
    /// `+=`
    AddAssign,
    /// `-=`
    SubAssign,
    /// `*=`
    MulAssign,
    /// `/=`
    DivAssign,
    /// `%=`
    ModAssign,
    /// `&=`
    BitAndAssign,
    /// `|=`
    BitOrAssign,
    /// `<<=`
    LShiftAssign,
    /// `>>=`
    RShitAssign,
}

/// The assignment operator that a token kind spells, if any.
pub open spec fn assignment_op_of(kind: TokenKind) -> Option<AssignmentOp> {
    match kind {
        TokenKind::Equal => Some(AssignmentOp::Assign),
        TokenKind::PlusEqual => Some(AssignmentOp::AddAssign),
        TokenKind::MinusEqual => Some(AssignmentOp::SubAssign),
        TokenKind::StarEqual => Some(AssignmentOp::MulAssign),
        TokenKind::SlashEqual => Some(AssignmentOp::DivAssign),
        TokenKind::PercentEqual => Some(AssignmentOp::ModAssign),
        TokenKind::BitwiseAndEqual => Some(AssignmentOp::BitAndAssign),
        TokenKind::BitwiseOrEqual => Some(AssignmentOp::BitOrAssign),
        TokenKind::LShiftEqual => Some(AssignmentOp::LShiftAssign),
        TokenKind::RShiftEqual => Some(AssignmentOp::RShitAssign),
        _ => None,
    }
}

impl AssignmentOp {
    /// The assignment operator that `kind` spells, if any.
    pub fn from_token(kind: TokenKind) -> (r: Option<AssignmentOp>)
        ensures
            r == assignment_op_of(kind),
    {
        match kind {
            TokenKind::Equal => Some(AssignmentOp::Assign),
            TokenKind::PlusEqual => Some(AssignmentOp::AddAssign),
            TokenKind::MinusEqual => Some(AssignmentOp::SubAssign),
            TokenKind::StarEqual => Some(AssignmentOp::MulAssign),
            TokenKind::SlashEqual => Some(AssignmentOp::DivAssign),
            TokenKind::PercentEqual => Some(AssignmentOp::ModAssign),
            TokenKind::BitwiseAndEqual => Some(AssignmentOp::BitAndAssign),
            TokenKind::BitwiseOrEqual => Some(AssignmentOp::BitOrAssign),
            TokenKind::LShiftEqual => Some(AssignmentOp::LShiftAssign),
            TokenKind::RShiftEqual => Some(AssignmentOp::RShitAssign),
            _ => None,
        }
    }
}

/// Binary operators.
#[derive(Debug, Clone, Copy, PartialEq, Eq, Structural)]
pub enum BinaryOp {
    /// `+`
    Add,
    /// `-`
    Sub,
    /// `*`
    Mul,
    /// `/`
    Div,
    /// The pipe operator, for function chaining.
    Pipe,
    /// `..`
    Range,
    /// `==`
    Eq,
    /// `!=`
    Neq,
    /// `<`
    Lt,
    /// `>`
    Gt,
    /// `<=`
    Leq,
    /// `>=`
    Geq,
}

/// The binary operator that a token kind spells, if any: the arithmetic
/// operators but `%`, the comparisons, `..`, and the pipe `|`.
pub open spec fn binary_op_of(kind: TokenKind) -> Option<BinaryOp> {
    match kind {
        TokenKind::Plus => Some(BinaryOp::Add),
        TokenKind::Minus => Some(BinaryOp::Sub),
        TokenKind::Star => Some(BinaryOp::Mul),
        TokenKind::Slash => Some(BinaryOp::Div),
        TokenKind::Greater => Some(BinaryOp::Gt),
        TokenKind::GreaterEq => Some(BinaryOp::Geq),
        TokenKind::Less => Some(BinaryOp::Lt),
        TokenKind::LessEq => Some(BinaryOp::Leq),
        TokenKind::EqualEqual => Some(BinaryOp::Eq),
        TokenKind::BangEqual => Some(BinaryOp::Neq),
        TokenKind::Range => Some(BinaryOp::Range),
        TokenKind::Pipe => Some(BinaryOp::Pipe),
        _ => None,
    }
}

impl BinaryOp {
    /// The binary operator that `value` spells, if any.
    pub fn from_token_kind(value: TokenKind) -> (r: Option<BinaryOp>)
        ensures
            r == binary_op_of(value),
    {
        match value {
            TokenKind::Plus => Some(BinaryOp::Add),
            TokenKind::Minus => Some(BinaryOp::Sub),
            TokenKind::Star => Some(BinaryOp::Mul),
            TokenKind::Slash => Some(BinaryOp::Div),
            TokenKind::Greater => Some(BinaryOp::Gt),
            TokenKind::GreaterEq => Some(BinaryOp::Geq),
            TokenKind::Less => Some(BinaryOp::Lt),
            TokenKind::LessEq => Some(BinaryOp::Leq),
            TokenKind::EqualEqual => Some(BinaryOp::Eq),
            TokenKind::BangEqual => Some(BinaryOp::Neq),
            TokenKind::Range => Some(BinaryOp::Range),
            TokenKind::Pipe => Some(BinaryOp::Pipe),
            _ => None,
        }
    }
}

/// Distinct token kinds spell distinct binary operators.
pub proof fn law_binary_op_injective(a: TokenKind, b: TokenKind)
    requires
        binary_op_of(a) is Some,
        binary_op_of(a) == binary_op_of(b),
    ensures
        a == b,
{
}

/// A unary operation with one operand.
#[derive(Debug)]
pub struct UnaryExpr {
    pub op: UnaryOp,
    pub expr: Spanned<ExprKind>,
}

/// Unary operators.
#[derive(Debug, Clone, Copy, PartialEq, Eq, Structural)]
pub enum UnaryOp {
    /// `-`, negation.
    Neg,
    /// `!`, logical not.
    Not,
    /// `+`, the identity.
    Plus,
}

/// The unary operator that a token kind spells, if any.
pub open spec fn unary_op_of(kind: TokenKind) -> Option<UnaryOp> {
    match kind {
        TokenKind::Plus => Some(UnaryOp::Plus),
        TokenKind::Minus => Some(UnaryOp::Neg),
        TokenKind::Not => Some(UnaryOp::Not),
        _ => None,
    }
}

impl UnaryOp {
    /// The unary operator that `value` spells, if any.
    pub fn from_token_kind(value: TokenKind) -> (r: Option<UnaryOp>)
        ensures
            r == unary_op_of(value),
    {
        match value {
            TokenKind::Plus => Some(UnaryOp::Plus),
            TokenKind::Minus => Some(UnaryOp::Neg),
            TokenKind::Not => Some(UnaryOp::Not),
            _ => None,
        }
    }
}

/// A call.
#[derive(Debug)]
pub struct CallExpr {
    /// What is called, usually a name.
    pub callee: Spanned<ExprKind>,
    /// The arguments, in order.
    pub args: Vec<Spanned<ExprKind>>,
}

/// A block of statements between braces.
#[derive(Debug)]
pub struct Block {
    pub stmts: Vec<Statement>,
}

/// A range with optional ends, such as `1..`, `..10` or `1..10`.
#[derive(Debug)]
pub struct RangeExpr {
    /// The inclusive start.
    pub start: Option<Spanned<ExprKind>>,
    /// The exclusive end.
    pub end: Option<Spanned<ExprKind>>,
}

/// A conditional expression with both branches.
#[derive(Debug)]
pub struct IfExpr {
    pub condition: Spanned<ExprKind>,
    pub then_branch: Spanned<ExprKind>,
    pub else_branch: Spanned<ExprKind>,
}

} // verus!
