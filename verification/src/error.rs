//! The typed failures of a resolution call and their user-facing text.

use vstd::prelude::*;
use vstd::string::StringExecFns;

verus! {

/// Why a resolution call did not produce its result.
#[derive(Debug, Clone, PartialEq, Eq)]
pub enum ResolveError {
    /// No session is held; recoverable by logging in.
    NotAuthenticated,
    /// The remote service rejected the login; carries its detail.
    AuthFailure(String),
    /// The requested identifier or key resolves to nothing.
    NotFound,
    /// A fetch failed in transport; carries the name of the fetch.
    RemoteUnavailable(String),
    /// Data that must exist is absent; carries the offending object's id.
    MalformedCatalogData(String),
}

/// The mathematical content of a `ResolveError`.
pub ghost enum ErrorView {
    NotAuthenticated,
    AuthFailure(Seq<char>),
    NotFound,
    RemoteUnavailable(Seq<char>),
    MalformedCatalogData(Seq<char>),
}

impl View for ResolveError {
    type V = ErrorView;

    open spec fn view(&self) -> ErrorView {
        match *self {
            ResolveError::NotAuthenticated => ErrorView::NotAuthenticated,
            ResolveError::AuthFailure(detail) => ErrorView::AuthFailure(detail@),
            ResolveError::NotFound => ErrorView::NotFound,
            ResolveError::RemoteUnavailable(fetch) => ErrorView::RemoteUnavailable(fetch@),
            ResolveError::MalformedCatalogData(id) => ErrorView::MalformedCatalogData(id@),
        }
    }
}

/// The text shown for each error kind.
pub open spec fn message_of(e: ErrorView) -> Seq<char> {
    match e {
        ErrorView::NotAuthenticated => "You are not logged in."@,
        ErrorView::AuthFailure(detail) => "Failed to log in."@ + detail,
        ErrorView::NotFound => "Not found."@,
        ErrorView::RemoteUnavailable(fetch) => "Remote fetch failed: "@ + fetch,
        ErrorView::MalformedCatalogData(id) => "Malformed catalog data: "@ + id,
    }
}

impl ResolveError {
    /// A short human-readable string for this error.
    pub fn message(&self) -> (r: String)
        ensures
            r@ == message_of(self@),
    {
        match self {
            ResolveError::NotAuthenticated => String::from_str("You are not logged in."),
            ResolveError::AuthFailure(detail) => String::from_str("Failed to log in.").concat(
                detail.as_str(),
            ),
            ResolveError::NotFound => String::from_str("Not found."),
            ResolveError::RemoteUnavailable(fetch) => String::from_str(
                "Remote fetch failed: ",
            ).concat(fetch.as_str()),
            ResolveError::MalformedCatalogData(id) => String::from_str(
                "Malformed catalog data: ",
            ).concat(id.as_str()),
        }
    }

    /// A copy of this error.
    pub fn duplicate(&self) -> (r: ResolveError)
        ensures
            r == *self,
    {
        match self {
            ResolveError::NotAuthenticated => ResolveError::NotAuthenticated,
            ResolveError::AuthFailure(detail) => ResolveError::AuthFailure(detail.clone()),
            ResolveError::NotFound => ResolveError::NotFound,
            ResolveError::RemoteUnavailable(fetch) => ResolveError::RemoteUnavailable(
                fetch.clone(),
            ),
            ResolveError::MalformedCatalogData(id) => ResolveError::MalformedCatalogData(
                id.clone(),
            ),
        }
    }
}

} // verus!
