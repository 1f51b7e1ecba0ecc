//! The error type shared by the whole library.

use vstd::prelude::*;

verus! {

/// What went wrong, by the part of the system that failed.
#[derive(Debug)]
pub enum DbgFlowError {
    /// A backend (tracer, debugger, supervisor) refused or failed.
    Backend(String),
    /// An artifact could not be written or read.
    Artifact(String),
    /// No session has the given id.
    SessionNotFound(String),
    /// The session with the given id is closed.
    SessionClosed(String),
}

/// The mathematical form of an error.
pub enum ErrorView {
    Backend(Seq<char>),
    Artifact(Seq<char>),
    SessionNotFound(Seq<char>),
    SessionClosed(Seq<char>),
}

impl View for DbgFlowError {
    type V = ErrorView;

    open spec fn view(&self) -> ErrorView {
        match *self {
            DbgFlowError::Backend(s) => ErrorView::Backend(s@),
            DbgFlowError::Artifact(s) => ErrorView::Artifact(s@),
            DbgFlowError::SessionNotFound(s) => ErrorView::SessionNotFound(s@),
            DbgFlowError::SessionClosed(s) => ErrorView::SessionClosed(s@),
        }
    }
}

impl ErrorView {
    /// The text that an error carries.
    pub open spec fn text(self) -> Seq<char> {
        match self {
            ErrorView::Backend(s) => s,
            ErrorView::Artifact(s) => s,
            ErrorView::SessionNotFound(s) => s,
            ErrorView::SessionClosed(s) => s,
        }
    }
}

impl DbgFlowError {
    /// The text that the error carries.
    pub fn message(&self) -> (r: String)
        ensures
            r@ == self@.text(),
    {
        match self {
            DbgFlowError::Backend(s) => s.clone(),
            DbgFlowError::Artifact(s) => s.clone(),
            DbgFlowError::SessionNotFound(s) => s.clone(),
            DbgFlowError::SessionClosed(s) => s.clone(),
        }
    }

    /// A backend error with a fixed text.
    pub fn backend(text: &str) -> (r: DbgFlowError)
        ensures
            r@ == ErrorView::Backend(text@),
    {
        DbgFlowError::Backend(text.to_owned())
    }
}

} // verus!
