//! The single session cell: absent until a login succeeds, replaced
//! wholesale by each later successful login.

use crate::error::{ErrorView, ResolveError};
use vstd::prelude::*;
use vstd::string::StringExecFns;

verus! {

/// Holds the session handle `H` that authorises remote calls, if any.
#[derive(Debug)]
pub struct ViewerContext<H> {
    pub session: Option<H>,
}

/// The greeting for an account logged in with credentials.
pub open spec fn welcome_of(username: Seq<char>, contact: Seq<char>) -> Seq<char> {
    "Welcome "@ + username + ", you have logged in. "@ + contact + " "@
}

/// The greeting for an anonymous session.
pub open spec fn anonymous_welcome() -> Seq<char> {
    "Welcome Anon, you have logged in."@
}

/// Builds the greeting for `username`, embedding the account's contact identifier.
pub fn welcome(username: &str, contact: &str) -> (r: String)
    ensures
        r@ == welcome_of(username@, contact@),
{
    String::from_str("Welcome ").concat(username).concat(", you have logged in. ").concat(
        contact,
    ).concat(" ")
}

impl<H> ViewerContext<H> {
    /// A context without a session.
    pub fn new() -> (r: ViewerContext<H>)
        ensures
            r.session is None,
    {
        ViewerContext { session: None }
    }

    /// Whether a session is held.
    pub fn is_authenticated(&self) -> (r: bool)
        ensures
            r == self.session is Some,
    {
        self.session.is_some()
    }

    /// The held session, or `NotAuthenticated` where none is held.
    pub fn require_session(&self) -> (r: Result<&H, ResolveError>)
        ensures
            match self.session {
                Some(handle) => r is Ok && *r->Ok_0 == handle,
                None => r is Err && r->Err_0@ == ErrorView::NotAuthenticated,
            },
    {
        match &self.session {
            Some(handle) => Ok(handle),
            None => Err(ResolveError::NotAuthenticated),
        }
    }

    /// Completes a login with credentials. A granted handle replaces the
    /// held session and the greeting embeds the contact identifier; a
    /// refusal leaves the context as it was and reports the remote detail.
    pub fn login(&mut self, username: &str, grant: Result<(H, String), String>) -> (r: Result<
        String,
        ResolveError,
    >)
        ensures
            match grant {
                Ok(granted) => {
                    &&& final(self).session == Some(granted.0)
                    &&& r is Ok
                    &&& r->Ok_0@ == welcome_of(username@, granted.1@)
                },
                Err(detail) => {
                    &&& final(self).session == old(self).session
                    &&& r is Err
                    &&& r->Err_0@ == ErrorView::AuthFailure(detail@)
                },
            },
    {
        match grant {
            Ok(granted) => {
                let (handle, contact) = granted;
                self.session = Some(handle);
                Ok(welcome(username, contact.as_str()))
            },
            Err(detail) => Err(ResolveError::AuthFailure(detail)),
        }
    }

    /// Completes an anonymous login, under the same rules as `login`.
    pub fn login_anonymous(&mut self, grant: Result<H, String>) -> (r: Result<String, ResolveError>)
        ensures
            match grant {
                Ok(handle) => {
                    &&& final(self).session == Some(handle)
                    &&& r is Ok
                    &&& r->Ok_0@ == anonymous_welcome()
                },
                Err(detail) => {
                    &&& final(self).session == old(self).session
                    &&& r is Err
                    &&& r->Err_0@ == ErrorView::AuthFailure(detail@)
                },
            },
    {
        match grant {
            Ok(handle) => {
                self.session = Some(handle);
                Ok(String::from_str("Welcome Anon, you have logged in."))
            },
            Err(detail) => Err(ResolveError::AuthFailure(detail)),
        }
    }
}

} // verus!
