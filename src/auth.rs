//! Sign-in and token validation outcomes, mapped to a stable taxonomy.
use vstd::prelude::*;

verus! {

/// What callers learn of a failed authentication.
pub enum AuthError<E> {
    /// The token was rejected.
    BadToken,
    /// The credentials were rejected.
    BadCredentials,
    /// Any other failure of the store, unchanged.
    Other(E),
}

/// How the store classified a failure.
#[derive(Debug, PartialEq, Eq, Structural, Clone, Copy)]
pub enum FailureKind {
    /// The store could not run the authentication query.
    InvalidQuery,
    /// The store refused the authentication.
    InvalidAuth,
    /// Anything else: transport, serialization, ...
    Other,
}

/// A store failure with its classification.
pub struct Failure<E> {
    pub kind: FailureKind,
    pub error: E,
}

/// Whether the store rejected what was presented to it.
pub open spec fn is_rejection(kind: FailureKind) -> bool {
    kind == FailureKind::InvalidQuery || kind == FailureKind::InvalidAuth
}

/// The outcome of validating a token: rejections become `BadToken`, other
/// failures pass through.
pub fn authenticate_outcome<E>(outcome: Result<(), Failure<E>>) -> (r: Result<(), AuthError<E>>)
    ensures
        outcome is Ok <==> r is Ok,
        outcome matches Err(f) ==> (if is_rejection(f.kind) {
            r matches Err(AuthError::BadToken)
        } else {
            r matches Err(AuthError::Other(e)) && e == f.error
        }),
{
    match outcome {
        Ok(()) => Ok(()),
        Err(f) => match f.kind {
            FailureKind::InvalidQuery => Err(AuthError::BadToken),
            FailureKind::InvalidAuth => Err(AuthError::BadToken),
            FailureKind::Other => Err(AuthError::Other(f.error)),
        },
    }
}

/// The outcome of a sign-in: the token on success, rejections become
/// `BadCredentials`, other failures pass through.
pub fn signin_outcome<E>(outcome: Result<String, Failure<E>>) -> (r: Result<String, AuthError<E>>)
    ensures
        outcome matches Ok(t) ==> r matches Ok(u) && u@ == t@,
        outcome matches Err(f) ==> (if is_rejection(f.kind) {
            r matches Err(AuthError::BadCredentials)
        } else {
            r matches Err(AuthError::Other(e)) && e == f.error
        }),
{
    match outcome {
        Ok(token) => Ok(token),
        Err(f) => match f.kind {
            FailureKind::InvalidQuery => Err(AuthError::BadCredentials),
            FailureKind::InvalidAuth => Err(AuthError::BadCredentials),
            FailureKind::Other => Err(AuthError::Other(f.error)),
        },
    }
}

} // verus!
