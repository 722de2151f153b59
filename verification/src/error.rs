//! Errors of the service host.

use vstd::prelude::*;

verus! {

/// Why a service operation failed.
#[derive(Debug, PartialEq, Eq)]
pub enum ServiceError {
    /// The namespace, the key or the value was rejected; the text says why.
    Validation(String),
    /// The addressed entry does not exist.
    NotFound,
    /// The database could not serve the request.
    Database(String),
    /// An internal facility (such as id generation) failed.
    Internal(String),
}

/// Mathematical value of a [`ServiceError`].
pub enum ServiceErrorView {
    Validation(Seq<char>),
    NotFound,
    Database(Seq<char>),
    Internal(Seq<char>),
}

impl View for ServiceError {
    type V = ServiceErrorView;

    open spec fn view(&self) -> ServiceErrorView {
        match self {
            ServiceError::Validation(m) => ServiceErrorView::Validation(m@),
            ServiceError::NotFound => ServiceErrorView::NotFound,
            ServiceError::Database(m) => ServiceErrorView::Database(m@),
            ServiceError::Internal(m) => ServiceErrorView::Internal(m@),
        }
    }
}

} // verus!
