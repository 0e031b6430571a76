//! Statements.
use vstd::prelude::*;

use crate::ast::expression::ExprKind;
use crate::ast::{Expression, Spanned, Statement};

verus! {

/// A statement of a function body or of a script.
#[derive(Debug)]
pub enum StmtKind {
    /// A binding, such as `let filtered = raw_data |> ...`.
    Let(Box<LetStmt>),
    /// A block of statements.
    Block(Vec<Statement>),
    /// A conditional statement.
    If { condition: Expression, if_branch: Box<Statement>, else_branch: Option<Box<Statement>> },
    /// An expression evaluated for its effects, or as the value of a block.
    Expr(Spanned<ExprKind>),
}

/// A binding of a name to an optional value.
#[derive(Debug)]
pub struct LetStmt {
    /// The name being bound.
    pub name: Spanned<String>,
    /// The value, if any.
    pub initializer: Option<Spanned<ExprKind>>,
}

/// A type written as a path, with flags such as fallibility.
#[derive(Debug, Clone)]
pub struct TypeInfoAst {
    pub path: Vec<Spanned<String>>,
    pub flags: u32,
}

impl TypeInfoAst {
    /// The flag of a fallible type `!T`.
    pub open spec fn flag_error() -> u32 {
        1u32
    }

    /// The type `path` with no flag set.
    pub fn new(path: Vec<Spanned<String>>) -> (t: TypeInfoAst)
        ensures
            t.path == path,
            t.flags == 0,
    {
        TypeInfoAst { path, flags: 0 }
    }

    /// The fallible type `!path`.
    pub fn error(path: Vec<Spanned<String>>) -> (t: TypeInfoAst)
        ensures
            t.path == path,
            t.flags == Self::flag_error(),
    {
        TypeInfoAst { path, flags: 1 }
    }

    /// Whether the type is fallible.
    pub fn is_error(&self) -> (b: bool)
        ensures
            b == (self.flags & Self::flag_error() != 0),
    {
        (self.flags & 1) != 0
    }

    /// The same type, made fallible.
    pub fn with_error(self) -> (t: TypeInfoAst)
        ensures
            t.path == self.path,
            t.flags == self.flags | Self::flag_error(),
    {
        let mut t = self;
        t.flags = t.flags | 1;
        t
    }

    /// The same type with the bits of `flag` set as well.
    pub fn with_flag(self, flag: u32) -> (t: TypeInfoAst)
        ensures
            t.path == self.path,
            t.flags == self.flags | flag,
    {
        let mut t = self;
        t.flags = t.flags | flag;
        t
    }

    /// The same type with the bits of `flag` cleared.
    pub fn without_flag(self, flag: u32) -> (t: TypeInfoAst)
        ensures
            t.path == self.path,
            t.flags == self.flags & !flag,
    {
        let mut t = self;
        t.flags = t.flags & !flag;
        t
    }
}

/// Setting the error flag marks the type as erroneous, whatever flags it had.
pub proof fn law_with_error_is_error(flags: u32)
    ensures
        (flags | TypeInfoAst::flag_error()) & TypeInfoAst::flag_error() != 0,
{
    assert((flags | 1u32) & 1u32 != 0) by (bit_vector);
}

/// Clearing a flag leaves it unset, and leaves every other flag as it was.
pub proof fn law_without_flag_clears(flags: u32, flag: u32, other: u32)
    requires
        flag & other == 0,
    ensures
        (flags & !flag) & flag == 0,
        (flags & !flag) & other == flags & other,
{
    assert((flags & !flag) & flag == 0) by (bit_vector);
    assert(flag & other == 0 ==> (flags & !flag) & other == flags & other) by (bit_vector);
}

/// Clearing a flag undoes setting it, when it was not set before.
pub proof fn law_without_undoes_with(flags: u32, flag: u32)
    requires
        flags & flag == 0,
    ensures
        (flags | flag) & !flag == flags,
{
    assert(flags & flag == 0 ==> (flags | flag) & !flag == flags) by (bit_vector);
}

} // verus!
