//! How a request is answered: with a response, or by refusing it.

use rocket::http::uri::Absolute;
use vstd::prelude::*;

verus! {

/// An absolute URI as Rocket holds it. This crate only carries such a URI
/// from the adapter to the redirect and never looks inside one.
#[verifier::external_type_specification]
#[verifier::external_body]
pub struct ExAbsolute<'a>(Absolute<'a>);

/// The status of a response that refuses a request.
#[derive(Clone, Copy, Debug, PartialEq, Eq, Structural)]
pub enum Status {
    /// 400: the request is at fault.
    BadRequest,
    /// 500: the server is at fault.
    InternalServerError,
}

/// Why a request was refused. `E` is the adapter's error, kept for the
/// operator's log; no response shows it.
#[derive(Clone, Debug, PartialEq, Eq)]
pub enum Failure<E> {
    /// No `OAuth2` is in managed state: the host was set up wrongly.
    Unmanaged,
    /// The adapter could not make an authorization URI.
    Authorization(E),
    /// The request has no query, or one without a well-formed `code` and
    /// `state`.
    BadQuery,
    /// The state cookie is missing, or `state` is not what it holds.
    BadState,
    /// The adapter could not exchange the code for a token.
    Exchange(E),
}

impl<E> Failure<E> {
    /// The status to answer with: 500 where the server is at fault, 400 where
    /// the login attempt did not go through.
    pub open spec fn spec_status(&self) -> Status {
        match self {
            Failure::Unmanaged => Status::InternalServerError,
            Failure::Authorization(_) => Status::InternalServerError,
            Failure::BadQuery => Status::BadRequest,
            Failure::BadState => Status::BadRequest,
            Failure::Exchange(_) => Status::BadRequest,
        }
    }

    /// The status to answer with.
    #[verifier::when_used_as_spec(spec_status)]
    pub fn status(&self) -> (status: Status)
        ensures
            status == self.spec_status(),
    {
        match self {
            Failure::Unmanaged => Status::InternalServerError,
            Failure::Authorization(_) => Status::InternalServerError,
            Failure::BadQuery => Status::BadRequest,
            Failure::BadState => Status::BadRequest,
            Failure::Exchange(_) => Status::BadRequest,
        }
    }
}

/// How a handler answers: with a response, or by refusing.
#[derive(Clone, Debug, PartialEq, Eq)]
pub enum Outcome<R, E> {
    Success(R),
    Failure(Failure<E>),
}

/// A response that sends the browser on to `uri`.
#[derive(Debug, PartialEq, Eq)]
pub struct Redirect {
    pub uri: Absolute<'static>,
}

} // verus!
