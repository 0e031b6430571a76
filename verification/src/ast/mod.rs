//! The abstract syntax tree of a source file.
pub mod expression;
pub mod item;
pub mod statement;
pub mod view;

use vstd::prelude::*;

use crate::ast::expression::ExprKind;
use crate::ast::item::ItemKind;
use crate::ast::statement::StmtKind;
use crate::span::Span;

verus! {

/// A node together with the bytes of the source it was parsed from.
#[derive(Debug, Clone)]
pub struct Spanned<T> {
    pub node: T,
    pub span: Span,
}

impl<T> Spanned<T> {
    /// The node `node` at `span`.
    pub fn new(node: T, span: Span) -> (s: Spanned<T>)
        ensures
            s.node == node,
            s.span == span,
    {
        Spanned { node, span }
    }
}

pub type Expression = Spanned<ExprKind>;

pub type Statement = Spanned<StmtKind>;

pub type Item = Spanned<ItemKind>;

/// The root of a parsed source file: its top-level items, in order.
#[derive(Debug)]
pub struct Ast {
    pub items: Vec<Spanned<ItemKind>>,
}

impl Ast {
    /// The tree with the given items.
    pub fn new(items: Vec<Spanned<ItemKind>>) -> (a: Ast)
        ensures
            a.items == items,
    {
        Ast { items }
    }
}

} // verus!
