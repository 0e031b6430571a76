//! The high-level intermediate representation: identifiers of definitions
//! and locals, scopes of names, and module items.
pub mod expression;
pub mod globals;
pub mod item;
pub mod module;
pub mod statement;
pub mod table;
