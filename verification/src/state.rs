//! The state of a login attempt: the cookie that keeps it between the
//! redirect to the provider and the provider's redirect back, and the verdict
//! on a callback that claims it.

use rocket::http::uri::Absolute;
use vstd::prelude::*;

use crate::cookies::{Cookie, CookieText, Cookies, SameSite};
use crate::query::parsed_query;
use crate::response::Redirect;
use crate::text::str_eq;

verus! {

/// The name of the private cookie that keeps the state of a login attempt
/// between the redirect to the provider and the provider's redirect back.
pub const STATE_COOKIE_NAME: &'static str = "rocket_oauth2_state";

/// The cookie that keeps `state`: under the reserved name, `SameSite=Lax`.
pub open spec fn state_cookie(state: Seq<char>) -> CookieText {
    CookieText { name: STATE_COOKIE_NAME@, value: state, same_site: Some(SameSite::Lax) }
}

/// Whether a callback with `state` is let through: the state cookie is there
/// and holds exactly `state`, and `state` is not empty.
pub open spec fn state_accepted(cookies: Map<Seq<char>, CookieText>, state: Seq<char>) -> bool {
    &&& state.len() > 0
    &&& cookies.contains_key(STATE_COOKIE_NAME@)
    &&& cookies[STATE_COOKIE_NAME@].value == state
}

/// What is decided of a callback before anything is asked of the adapter.
pub enum Verdict {
    /// Refused: no query, or no well-formed `code` and `state` in it.
    BadQuery,
    /// Refused: `state` is not let through.
    BadState,
    /// Let through: this code is to be exchanged.
    Exchange(Seq<char>),
}

/// The verdict on a callback with this raw query, in a session with these
/// cookies.
pub open spec fn callback_verdict(
    query: Option<Seq<char>>,
    cookies: Map<Seq<char>, CookieText>,
) -> Verdict {
    match query {
        None => Verdict::BadQuery,
        Some(raw) => match parsed_query(raw) {
            None => Verdict::BadQuery,
            Some(params) => if state_accepted(cookies, params.state) {
                Verdict::Exchange(params.code)
            } else {
                Verdict::BadState
            },
        },
    }
}

/// The cookies of the session after the callback: the state cookie is gone
/// once a callback has been let through, whatever comes of the exchange.
pub open spec fn cookies_after_callback(
    query: Option<Seq<char>>,
    cookies: Map<Seq<char>, CookieText>,
) -> Map<Seq<char>, CookieText> {
    if callback_verdict(query, cookies) is Exchange {
        cookies.remove(STATE_COOKIE_NAME@)
    } else {
        cookies
    }
}

/// What an optional string slice says.
pub open spec fn query_text(query: Option<&str>) -> Option<Seq<char>> {
    match query {
        Some(raw) => Some(raw@),
        None => None,
    }
}

/// How a login begins, given what the adapter returned: with a redirect to
/// the URI and the state kept in its cookie, or with the adapter's error and
/// the cookies as they were.
pub open spec fn begins_login<E>(
    authorized: Result<(Absolute<'static>, String), E>,
    before: Map<Seq<char>, CookieText>,
    r: Result<Redirect, E>,
    after: Map<Seq<char>, CookieText>,
) -> bool {
    match authorized {
        Ok((uri, state)) => {
            &&& r == Ok::<Redirect, E>(Redirect { uri })
            &&& after == before.insert(STATE_COOKIE_NAME@, state_cookie(state@))
        },
        Err(e) => {
            &&& r == Err::<Redirect, E>(e)
            &&& after == before
        },
    }
}

/// Begins a login with what the adapter returned for the authorization
/// request.
pub fn login_redirect<E>(
    cookies: &mut Cookies,
    authorized: Result<(Absolute<'static>, String), E>,
) -> (r: Result<Redirect, E>)
    ensures
        begins_login(authorized, old(cookies)@, r, final(cookies)@),
{
    match authorized {
        Ok((uri, state)) => {
            cookies.add_private(
                Cookie {
                    name: STATE_COOKIE_NAME.to_owned(),
                    value: state,
                    same_site: Some(SameSite::Lax),
                },
            );
            Ok(Redirect { uri })
        },
        Err(e) => Err(e),
    }
}

/// Checks the `state` of a callback against the state cookie, and retires
/// the cookie where it lets the callback through: no later callback is let
/// through by the same cookie.
pub fn redeem_state(cookies: &mut Cookies, state: &str) -> (accepted: bool)
    ensures
        accepted == state_accepted(old(cookies)@, state@),
        final(cookies)@ == if accepted {
            old(cookies)@.remove(STATE_COOKIE_NAME@)
        } else {
            old(cookies)@
        },
{
    let accepted = match cookies.get_private(STATE_COOKIE_NAME) {
        Some(cookie) => !state.is_empty() && str_eq(cookie.value.as_str(), state),
        None => false,
    };
    if accepted {
        cookies.remove(STATE_COOKIE_NAME);
    }
    accepted
}

} // verus!
