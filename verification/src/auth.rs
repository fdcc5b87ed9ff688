//! Authentication.

use vstd::prelude::*;

pub mod oauth;

verus! {

/// Why a login attempt, or a question to a provider, came to nothing.
#[derive(Debug, Clone, PartialEq, Eq)]
pub enum AuthError {
    /// The token is not valid, the claims cannot be verified, or the
    /// provider turned the request down.
    Unauthorized,
    /// The provider's service could not be reached, or answered in a shape
    /// that was not expected.
    FailedDependency(String),
    /// The provider is not in the state that its construction should have
    /// left it in.
    Internal(String),
}

/// An `AuthError` as a mathematical value.
pub enum AuthErrorView {
    Unauthorized,
    FailedDependency(Seq<char>),
    Internal(Seq<char>),
}

impl View for AuthError {
    type V = AuthErrorView;

    open spec fn view(&self) -> AuthErrorView {
        match self {
            AuthError::Unauthorized => AuthErrorView::Unauthorized,
            AuthError::FailedDependency(what) => AuthErrorView::FailedDependency(what@),
            AuthError::Internal(what) => AuthErrorView::Internal(what@),
        }
    }
}

} // verus!
