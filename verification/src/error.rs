//! The error taxonomy of the repository stack: authorization failures,
//! cardinality failures, database failures annotated with the query that
//! caused them, and input-validation failures.

use crate::statement::{Arg, ArgView};
use vstd::prelude::*;

verus! {

/// Which mutation produced an entity, used to tag post-operation checks and
/// failure stages.
#[derive(Clone, Copy, Debug, PartialEq, Eq, Hash, Structural)]
pub enum Action {
    Insert,
    Select,
    Delete,
    Update,
}

/// A cardinality failure of an exactly-one helper.
#[derive(Clone, Copy, Debug, PartialEq, Eq, Structural)]
pub enum MultipleOperationError {
    /// The operation returned no data where exactly one row was expected.
    NoData,
    /// The operation returned `extra` rows beyond the single expected one.
    ExtraData { extra: u32 },
}

/// An error of the repository stack.
#[derive(Debug, PartialEq)]
pub enum RepoError {
    /// An access-control check said no.
    Unauthorized,
    /// A cardinality helper found the wrong number of rows.
    Multiple(MultipleOperationError),
    /// A select limit below one, rejected before any SQL is built.
    InvalidLimit { limit: i32 },
    /// A failure of the database driver.
    Database { message: String },
    /// A failure annotated with the query that caused it and its arguments.
    Query { query: String, args: Vec<Arg>, inner: Box<RepoError> },
    /// A failure annotated with the operation that was running.
    Operation { action: Action, inner: Box<RepoError> },
}

/// The mathematical shape of a [`RepoError`].
pub enum RepoErrorView {
    Unauthorized,
    Multiple(MultipleOperationError),
    InvalidLimit { limit: i32 },
    Database { message: Seq<char> },
    Query { query: Seq<char>, args: Seq<ArgView>, inner: Box<RepoErrorView> },
    Operation { action: Action, inner: Box<RepoErrorView> },
}

impl View for RepoError {
    type V = RepoErrorView;

    open spec fn view(&self) -> RepoErrorView
        decreases self,
    {
        match self {
            RepoError::Unauthorized => RepoErrorView::Unauthorized,
            RepoError::Multiple(m) => RepoErrorView::Multiple(*m),
            RepoError::InvalidLimit { limit } => RepoErrorView::InvalidLimit { limit: *limit },
            RepoError::Database { message } => RepoErrorView::Database { message: message@ },
            RepoError::Query { query, args, inner } => RepoErrorView::Query {
                query: query@,
                args: args.deep_view(),
                inner: Box::new((**inner).view()),
            },
            RepoError::Operation { action, inner } => RepoErrorView::Operation {
                action: *action,
                inner: Box::new((**inner).view()),
            },
        }
    }
}

/// An error wrapped with the stage label of the operation that ran.
pub open spec fn staged_view(action: Action, e: RepoErrorView) -> RepoErrorView {
    RepoErrorView::Operation { action, inner: Box::new(e) }
}

/// Attach the stage label of the operation that ran.
pub fn stage_error(action: Action, e: RepoError) -> (r: RepoError)
    ensures
        r@ == staged_view(action, e@),
{
    RepoError::Operation { action, inner: Box::new(e) }
}

/// An error wrapped with the query that caused it and its arguments.
pub open spec fn query_view(q: Seq<char>, args: Seq<ArgView>, e: RepoErrorView) -> RepoErrorView {
    RepoErrorView::Query { query: q, args, inner: Box::new(e) }
}

/// Attach the failing query and its arguments.
pub fn annotate_query(query: String, args: Vec<Arg>, e: RepoError) -> (r: RepoError)
    ensures
        r@ == query_view(query@, args.deep_view(), e@),
{
    RepoError::Query { query, args, inner: Box::new(e) }
}

} // verus!
