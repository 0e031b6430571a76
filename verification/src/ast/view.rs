//! Mathematical views of syntax trees, with texts as character sequences.
use vstd::prelude::*;

use crate::ast::expression::{AssignmentOp, BinaryOp, ExprKind, Literal, Param, UnaryOp};
use crate::ast::statement::StmtKind;
use crate::ast::{Expression, Statement};
use crate::span::Span;

verus! {

/// A literal value, with texts as characters.
pub enum LiteralView {
    Int(i64),
    Float(Seq<char>),
    String(Seq<char>),
    Bool(bool),
}

/// An expression together with its span.
pub struct ExprNode {
    pub kind: ExprView,
    pub span: Span,
}

/// An expression, with names and texts as characters.
///
/// A lambda is seen through the names of its parameters and its body; the
/// type annotations of its parameters are left out.
pub enum ExprView {
    Literal(LiteralView),
    Ident(Seq<char>, Span),
    Binary(Box<ExprNode>, BinaryOp, Box<ExprNode>),
    Unary(UnaryOp, Box<ExprNode>),
    Call(Box<ExprNode>, Seq<ExprNode>),
    List(Seq<ExprNode>),
    If(Box<ExprNode>, Box<ExprNode>, Box<ExprNode>),
    Grouping(Box<ExprNode>),
    Lambda(Seq<Seq<char>>, Box<StmtNode>),
    Assign(Box<ExprNode>, AssignmentOp, Box<ExprNode>),
    Member(Box<ExprNode>, Seq<char>, Span),
}

/// A statement together with its span.
pub struct StmtNode {
    pub kind: StmtView,
    pub span: Span,
}

/// A statement, with names as characters.
pub enum StmtView {
    Let(Seq<char>, Span, Option<ExprNode>),
    Block(Seq<StmtNode>),
    If(ExprNode, Box<StmtNode>, Option<Box<StmtNode>>),
    Expr(ExprNode),
}

/// The view of a literal.
pub open spec fn literal_view(l: Literal) -> LiteralView {
    match l {
        Literal::Int(i) => LiteralView::Int(i),
        Literal::Float(s) => LiteralView::Float(s@),
        Literal::String(s) => LiteralView::String(s@),
        Literal::Bool(b) => LiteralView::Bool(b),
    }
}

/// The view of an expression.
pub open spec fn expr_view(e: Expression) -> ExprNode
    decreases e,
{
    ExprNode { kind: kind_view(e.node), span: e.span }
}

/// The view of an expression kind.
pub open spec fn kind_view(k: ExprKind) -> ExprView
    decreases k,
{
    match k {
        ExprKind::Literal(l) => ExprView::Literal(literal_view(l)),
        ExprKind::Ident(name) => ExprView::Ident(name.node@, name.span),
        ExprKind::Binary(b) => ExprView::Binary(
            Box::new(expr_view(b.left)),
            b.op,
            Box::new(expr_view(b.right)),
        ),
        ExprKind::Unary(u) => ExprView::Unary(u.op, Box::new(expr_view(u.expr))),
        ExprKind::Call(c) => ExprView::Call(Box::new(expr_view(c.callee)), exprs_view(c.args@)),
        ExprKind::List(items) => ExprView::List(exprs_view(items@)),
        ExprKind::If(i) => ExprView::If(
            Box::new(expr_view(i.condition)),
            Box::new(expr_view(i.then_branch)),
            Box::new(expr_view(i.else_branch)),
        ),
        ExprKind::Grouping(g) => ExprView::Grouping(Box::new(expr_view(*g))),
        ExprKind::Lambda(l) => ExprView::Lambda(
            l.params@.map_values(|p: Param| p.name.node@),
            Box::new(stmt_view(l.body)),
        ),
        ExprKind::Assign(a) => ExprView::Assign(
            Box::new(expr_view(a.assignee)),
            a.op,
            Box::new(expr_view(a.value)),
        ),
        ExprKind::Member(m) => ExprView::Member(
            Box::new(expr_view(m.object)),
            m.member.node@,
            m.member.span,
        ),
    }
}

/// The views of a sequence of expressions.
pub open spec fn exprs_view(s: Seq<Expression>) -> Seq<ExprNode>
    decreases s,
{
    if s.len() == 0 {
        Seq::empty()
    } else {
        seq![expr_view(s[0])] + exprs_view(s.subrange(1, s.len() as int))
    }
}

/// The view of a statement.
pub open spec fn stmt_view(s: Statement) -> StmtNode
    decreases s,
{
    StmtNode { kind: stmt_kind_view(s.node), span: s.span }
}

/// The view of a statement kind.
pub open spec fn stmt_kind_view(k: StmtKind) -> StmtView
    decreases k,
{
    match k {
        StmtKind::Let(l) => StmtView::Let(
            l.name.node@,
            l.name.span,
            match l.initializer {
                Some(e) => Some(expr_view(e)),
                None => None,
            },
        ),
        StmtKind::Block(stmts) => StmtView::Block(stmts_view(stmts@)),
        StmtKind::If { condition, if_branch, else_branch } => StmtView::If(
            expr_view(condition),
            Box::new(stmt_view(*if_branch)),
            match else_branch {
                Some(b) => Some(Box::new(stmt_view(*b))),
                None => None,
            },
        ),
        StmtKind::Expr(e) => StmtView::Expr(expr_view(e)),
    }
}

/// The views of a sequence of statements.
pub open spec fn stmts_view(s: Seq<Statement>) -> Seq<StmtNode>
    decreases s,
{
    if s.len() == 0 {
        Seq::empty()
    } else {
        seq![stmt_view(s[0])] + stmts_view(s.subrange(1, s.len() as int))
    }
}

} // verus!
