//! Results of compiler queries and the state of a query being computed.
use vstd::prelude::*;

use std::sync::Arc;

use crate::ast::Ast;
use crate::diagnostic::{clone_string, Diagnostics};
use crate::hir::globals::GlobalScope;
use crate::interner::SymbolId;
use crate::module::ModuleId;
use crate::source::{SourceFile, SourceFileId};
use crate::token::Token;

verus! {

/// The value a query computed, with the diagnostics it reported.
#[derive(Debug)]
pub struct AnalysisResult<T> {
    pub value: Arc<T>,
    pub diagnostics: Arc<Diagnostics>,
}

/// What a query gives: its result, or a message saying why it failed.
pub type QueryResult<T> = Result<AnalysisResult<T>, String>;

/// Another handle to the value an `Arc` holds.
///
/// Calls std's `Clone for Arc`, documented to make a new pointer to the same
/// allocation; so the value seen through it is the same.
#[verifier::external_body]
fn arc_clone<T>(a: &Arc<T>) -> (r: Arc<T>)
    ensures
        r == *a,
{
    a.clone()
}

impl<T> AnalysisResult<T> {
    /// Another handle to the same value and diagnostics.
    pub fn share(&self) -> (r: AnalysisResult<T>)
        ensures
            r == *self,
    {
        AnalysisResult { value: arc_clone(&self.value), diagnostics: arc_clone(&self.diagnostics) }
    }
}

/// Lexical analysis of source files.
pub trait LexerQueries {
    /// The tokens of the file `file`.
    fn tokens_of(&self, file: SourceFileId) -> QueryResult<Vec<Token>>;
}

/// Parsing of source files.
pub trait ParserQueries {
    /// The syntax tree of the file `file`.
    fn ast_of(&self, file: SourceFileId) -> QueryResult<Ast>;
}

/// Access to source files.
pub trait SourceQueries {
    /// The source file at `path`.
    fn source_by_path(&self, path: &str) -> QueryResult<SourceFile>;

    /// The source file with identifier `id`.
    fn source_by_id(&self, id: SourceFileId) -> QueryResult<SourceFile>;
}

/// Interning of names.
pub trait SymbolQueries {
    /// The identifier of the name `text`.
    fn intern_symbol(&self, text: &str) -> SymbolId;

    /// The name with identifier `id`.
    fn symbol_text(&self, id: SymbolId) -> String;
}

/// The global names of modules.
pub trait ScopeQueries {
    /// The global scope of the module `module`.
    fn globals_of(&self, module: ModuleId) -> QueryResult<GlobalScope>;
}

/// The state of a query: still being computed, computed, or failed.
#[derive(Debug)]
pub enum QueryState<T> {
    InProgress,
    Completed(AnalysisResult<T>),
    Failed(String),
}

impl<T> QueryState<T> {
    /// The state of a query that has started.
    pub fn new() -> (s: QueryState<T>)
        ensures
            s is InProgress,
    {
        QueryState::InProgress
    }

    /// The state of a query that computed `result`.
    pub fn complete(result: AnalysisResult<T>) -> (s: QueryState<T>)
        ensures
            s == QueryState::<T>::Completed(result),
    {
        QueryState::Completed(result)
    }

    /// The state of a query that failed with `error`.
    pub fn fail(error: String) -> (s: QueryState<T>)
        ensures
            s == QueryState::<T>::Failed(error),
    {
        QueryState::Failed(error)
    }

    /// What a waiter gets now: the result of a completed query, the message of
    /// a failed one, or nothing yet while the query is in progress.
    pub fn poll(&self) -> (r: Option<QueryResult<T>>)
        ensures
            self is InProgress ==> r is None,
            *self matches QueryState::Completed(res) ==> r == Some(Ok::<AnalysisResult<T>, String>(res)),
            *self matches QueryState::Failed(e) ==> r matches Some(Err(m)) && m@ == e@,
    {
        match self {
            QueryState::InProgress => None,
            QueryState::Completed(res) => Some(Ok(res.share())),
            QueryState::Failed(e) => Some(Err(clone_string(e))),
        }
    }
}

} // verus!
