//! Top-level declarations.
use vstd::prelude::*;

use crate::ast::expression::{Block, Param};
use crate::ast::statement::{LetStmt, StmtKind};
use crate::ast::{Expression, Item, Spanned};
use crate::token::TokenKind;

verus! {

/// The top-level declarations of a source file.
#[derive(Debug)]
pub enum ItemKind {
    /// An import of other modules.
    Import(Box<ImportDef>),
    /// A global binding.
    GlobalLet(Box<LetStmt>),
    /// A type declaration.
    Type(Box<TypeDef>),
    /// A statement at the top level.
    Stmt(Box<StmtKind>),
    /// A function declaration.
    Function(FunctionDef),
    /// A use of metadata, such as an attribute.
    Metadata(MetaDataUsage),
    /// An implementation block.
    Impl(ImplDef),
}

/// A use of metadata: a name and named arguments.
#[derive(Debug)]
pub struct MetaDataUsage {
    pub name: Spanned<String>,
    pub args: Vec<Spanned<MetaArgument>>,
}

/// Methods implemented for a type.
#[derive(Debug)]
pub struct ImplDef {
    pub target: Spanned<AstTypeInfo>,
    pub methods: Vec<Item>,
}

/// A named argument of a metadata use.
#[derive(Debug)]
pub struct MetaArgument {
    pub name: Spanned<String>,
    pub value: Expression,
}

/// A user-defined type: a name, fields and generic parameters.
///
/// Each field is a [`Param`], as function parameters are.
#[derive(Debug)]
pub struct TypeDef {
    pub name: Spanned<String>,
    pub fields: Vec<Spanned<Param>>,
    pub generics: Vec<Spanned<GenericParam>>,
}

/// A generic parameter of a type.
#[derive(Debug, Clone)]
pub struct GenericParam {
    pub name: String,
}

/// A written type: a base, a modifier and generic arguments.
#[derive(Debug)]
pub struct AstTypeInfo {
    pub base: Spanned<AstTypeBase>,
    pub modifier: Spanned<AstTypeModifier>,
    pub generics: Vec<Spanned<AstTypeInfo>>,
}

/// Flags of a written type.
#[derive(Debug, Clone)]
pub enum TypeFlags {
    Array,
}

/// The name of a type.
#[derive(Debug, Clone)]
pub struct TypeName(pub String);

impl TypeName {
    /// The name.
    pub fn inner(&self) -> (s: &String)
        ensures
            s@ == self.0@,
    {
        &self.0
    }
}

/// The base of a written type: a name, or an array of a base.
#[derive(Debug)]
pub enum AstTypeBase {
    Named(TypeName),
    Array(Box<Spanned<AstTypeBase>>),
}

/// What a type modifier makes of a type: `T`, `T?`, `!T` or `T!?`.
#[derive(Debug, Clone, Copy, PartialEq, Eq, Structural)]
pub enum AstTypeModifier {
    /// No modifier: the type as written.
    Plain,
    Optional,
    Fallible,
    FallibleOptional,
}

/// The type modifier that a token kind spells, if any.
pub open spec fn type_modifier_of(tk: TokenKind) -> Option<AstTypeModifier> {
    match tk {
        TokenKind::Not => Some(AstTypeModifier::Fallible),
        TokenKind::Optional => Some(AstTypeModifier::Optional),
        TokenKind::FallibleOptional => Some(AstTypeModifier::FallibleOptional),
        _ => None,
    }
}

impl AstTypeModifier {
    /// The type modifier that `tk` spells, if any.
    pub fn from_token_kind(tk: TokenKind) -> (r: Option<AstTypeModifier>)
        ensures
            r == type_modifier_of(tk),
    {
        match tk {
            TokenKind::Not => Some(AstTypeModifier::Fallible),
            TokenKind::Optional => Some(AstTypeModifier::Optional),
            TokenKind::FallibleOptional => Some(AstTypeModifier::FallibleOptional),
            _ => None,
        }
    }
}

/// An import: a module path, an optional alias, and the names it exposes.
#[derive(Debug, Clone)]
pub struct ImportDef {
    /// The module path, such as `["Iris", "Data"]`.
    pub path: Vec<Spanned<String>>,
    /// The alias, such as `df` in `as df`.
    pub alias: Option<Spanned<String>>,
    /// The names imported directly, such as `sum` and `count`.
    pub exposing: Vec<Spanned<String>>,
}

/// A function: name, return type, parameters and body.
#[derive(Debug)]
pub struct FunctionDef {
    pub name: Spanned<String>,
    pub return_kind: Spanned<AstTypeInfo>,
    pub params: Vec<Spanned<Param>>,
    pub body: Block,
}

} // verus!
