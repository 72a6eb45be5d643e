//! The callback: what an application plugs in to receive the token.

use std::marker::PhantomData;
use vstd::prelude::*;

use crate::token::TokenResponse;

verus! {

/// An OAuth2 `Callback` implements application-specific OAuth client logic,
/// such as setting login cookies and making database and API requests. It
/// receives the request, of whatever type the host has for it, and the token.
/// The spec function says what an implementation may return, as those of
/// `Adapter` do.
pub trait Callback<Request>: Send + Sync + 'static {
    /// The callback Responder type.
    type Responder;

    /// Whether `callback` may return `response` for these arguments.
    open spec fn responds(
        &self,
        request: &Request,
        token: TokenResponse,
        response: Self::Responder,
    ) -> bool {
        true
    }

    /// This method will be called when a token exchange has successfully
    /// completed and will be provided with the request and the token.
    /// Implementors should perform application-specific logic here, such as
    /// checking a database or setting a login cookie.
    fn callback(&self, request: &Request, token: TokenResponse) -> (response: Self::Responder)
        ensures
            self.responds(request, token, response),
    ;
}

/// A plain function as a `Callback`: the function is called with the request
/// and the token, and what it returns is the response.
#[verifier::reject_recursive_types(Request)]
#[verifier::reject_recursive_types(R)]
#[verifier::reject_recursive_types(F)]
pub struct FnCallback<Request, R, F: Fn(&Request, TokenResponse) -> R> {
    function: F,
    request: PhantomData<Request>,
    response: PhantomData<R>,
}

impl<Request, R, F: Fn(&Request, TokenResponse) -> R> FnCallback<Request, R, F> {
    #[verifier::type_invariant]
    spec fn callable(&self) -> bool {
        forall|request: &Request, token: TokenResponse|
            call_requires(self.function, (request, token))
    }

    /// The function that is called.
    pub closed spec fn function(&self) -> F {
        self.function
    }

    /// Wraps a function that may be called with every request and token.
    pub fn new(function: F) -> (callback: Self)
        requires
            forall|request: &Request, token: TokenResponse|
                call_requires(function, (request, token)),
        ensures
            callback.function() == function,
    {
        FnCallback { function, request: PhantomData, response: PhantomData }
    }
}

impl<Request, R, F> Callback<Request> for FnCallback<Request, R, F> where
    F: Fn(&Request, TokenResponse) -> R + Send + Sync + 'static,
    Request: Send + Sync + 'static,
    R: Send + Sync + 'static,
 {
    type Responder = R;

    open spec fn responds(&self, request: &Request, token: TokenResponse, response: R) -> bool {
        call_ensures(self.function(), (request, token), response)
    }

    fn callback(&self, request: &Request, token: TokenResponse) -> (response: R) {
        proof {
            use_type_invariant(self);
        }
        (self.function)(request, token)
    }
}

} // verus!
