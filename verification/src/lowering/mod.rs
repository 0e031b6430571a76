//! Lowering of the syntax tree: its errors and name resolution.
pub mod diagnostic;
pub mod error;
pub mod globals;
pub mod module;
pub mod resolver;
