pub mod ast;
pub mod diagnostic;
pub mod driver;
pub mod hir;
pub mod interner;
pub mod lexer;
pub mod lowering;
pub mod module;
pub mod source;
pub mod span;
pub mod text;
pub mod token;
pub mod parser;
pub mod query;
pub mod reporting;
