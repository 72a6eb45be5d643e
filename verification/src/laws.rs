//! What holds of the login flow as a whole, whatever adapter and callback
//! are plugged in.

use rocket::http::uri::Absolute;
use vstd::prelude::*;

use crate::adapter::Adapter;
use crate::callback::Callback;
use crate::config::{ConfigError, ConfigFault, ConfigTable, ConfigValue};
use crate::cookies::CookieText;
use crate::oauth2::OAuth2;
use crate::oauth_config::{loads, OAuthConfig};
use crate::provider::{configured_endpoints, known_endpoints, Endpoints};
use crate::query::{
    callback_params, last_value, parsed_query, well_encoded, CallbackParams, FieldText,
};
use crate::response::{Failure, Outcome, Redirect, Status};
use crate::state::{
    begins_login, callback_verdict, cookies_after_callback, state_accepted, Verdict,
    STATE_COOKIE_NAME,
};
use crate::token::TokenResponse;

verus! {

/// A state is good for one callback. Once a callback has been let through,
/// the session's cookies let no callback through again, whatever its query:
/// not one that repeats the first, and no other.
pub proof fn state_is_single_use(
    first: Option<Seq<char>>,
    second: Option<Seq<char>>,
    cookies: Map<Seq<char>, CookieText>,
)
    requires
        callback_verdict(first, cookies) is Exchange,
    ensures
        !(callback_verdict(second, cookies_after_callback(first, cookies)) is Exchange),
{
}

/// A callback succeeds at most once. Of two callbacks handled one after the
/// other in the same session, where the first ended with the application's
/// response, the second is refused for its query or its state, and leaves the
/// cookies as they were.
pub proof fn callback_succeeds_at_most_once<A: Adapter, C: Callback<Request>, Request>(
    oauth: OAuth2<A, C>,
    first_request: &Request,
    first_query: Option<Seq<char>>,
    first_outcome: Outcome<C::Responder, A::Error>,
    second_request: &Request,
    second_query: Option<Seq<char>>,
    second_outcome: Outcome<C::Responder, A::Error>,
    before: Map<Seq<char>, CookieText>,
    between: Map<Seq<char>, CookieText>,
    after: Map<Seq<char>, CookieText>,
)
    requires
        oauth.handled(first_request, first_query, before, first_outcome, between),
        oauth.handled(second_request, second_query, between, second_outcome, after),
        first_outcome is Success,
    ensures
        second_outcome == Outcome::<C::Responder, A::Error>::Failure(Failure::BadQuery)
            || second_outcome == Outcome::<C::Responder, A::Error>::Failure(Failure::BadState),
        after == between,
{
    state_is_single_use(first_query, second_query, before);
}

/// The state that a login stored is let through. After a login that began
/// with a state that is not empty, a callback whose query gives that state is
/// let through, with the code of its query.
pub proof fn issued_state_is_accepted<E>(
    uri: Absolute<'static>,
    state: String,
    before: Map<Seq<char>, CookieText>,
    r: Result<Redirect, E>,
    after: Map<Seq<char>, CookieText>,
    query: Seq<char>,
    params: CallbackParams,
)
    requires
        begins_login(Ok::<(Absolute<'static>, String), E>((uri, state)), before, r, after),
        state@.len() > 0,
        parsed_query(query) == Some(params),
        params.state == state@,
    ensures
        callback_verdict(Some(query), after) == Verdict::Exchange(params.code),
{
}

/// A state other than the cookie's is refused. Where the query gives a
/// `state` that differs from what the state cookie holds, the callback is
/// refused for its state, and nothing depends on the adapter.
pub proof fn mismatched_state_is_refused(query: Seq<char>, cookies: Map<Seq<char>, CookieText>)
    requires
        cookies.contains_key(STATE_COOKIE_NAME@),
        parsed_query(query) matches Some(params) && params.state
            != cookies[STATE_COOKIE_NAME@].value,
    ensures
        callback_verdict(Some(query), cookies) == Verdict::BadState,
        cookies_after_callback(Some(query), cookies) == cookies,
{
}

/// Without the state cookie every callback is refused: for its query where
/// that gives no `code` and `state`, and for its state otherwise.
pub proof fn missing_cookie_is_refused(
    query: Option<Seq<char>>,
    cookies: Map<Seq<char>, CookieText>,
)
    requires
        !cookies.contains_key(STATE_COOKIE_NAME@),
    ensures
        !(callback_verdict(query, cookies) is Exchange),
        forall|state: Seq<char>| !state_accepted(cookies, state),
        cookies_after_callback(query, cookies) == cookies,
{
}

/// An empty state is never let through, whatever the cookies hold.
pub proof fn empty_state_is_refused(cookies: Map<Seq<char>, CookieText>)
    ensures
        !state_accepted(cookies, Seq::empty()),
{
}

/// The callback's response comes from a token. Where a callback ends with a
/// response, its query gave a code and a state that was let through, the
/// adapter may return a token for that code, and the response is one that the
/// application's callback may give for that token.
pub proof fn success_comes_from_a_token<A: Adapter, C: Callback<Request>, Request>(
    oauth: OAuth2<A, C>,
    request: &Request,
    query: Option<Seq<char>>,
    before: Map<Seq<char>, CookieText>,
    outcome: Outcome<C::Responder, A::Error>,
    after: Map<Seq<char>, CookieText>,
)
    requires
        oauth.handled(request, query, before, outcome, after),
        outcome is Success,
    ensures
        callback_verdict(query, before) matches Verdict::Exchange(code) && exists|
            token: TokenResponse,
        |
            {
                &&& #[trigger] oauth.adapter().exchanges(&oauth.config(), code, Ok(token))
                &&& oauth.callback().responds(request, token, outcome->Success_0)
            },
{
    let code = callback_verdict(query, before)->Exchange_0;
    let exchanged = choose|exchanged: Result<TokenResponse, A::Error>| #[trigger]
        oauth.exchanged_and_completed(request, code, exchanged, outcome);
    assert(exchanged is Ok);
    assert(oauth.adapter().exchanges(&oauth.config(), code, Ok(exchanged->Ok_0)));
}

/// A failed exchange refuses the callback. Where the adapter returns no token
/// for any code, no callback ends with a response: each one is refused, as a
/// bad request.
pub proof fn failed_exchange_is_refused<A: Adapter, C: Callback<Request>, Request>(
    oauth: OAuth2<A, C>,
    request: &Request,
    query: Option<Seq<char>>,
    before: Map<Seq<char>, CookieText>,
    outcome: Outcome<C::Responder, A::Error>,
    after: Map<Seq<char>, CookieText>,
)
    requires
        oauth.handled(request, query, before, outcome, after),
        forall|code: Seq<char>, token: TokenResponse|
            !#[trigger] oauth.adapter().exchanges(&oauth.config(), code, Ok(token)),
    ensures
        outcome matches Outcome::Failure(failure) && failure.status() == Status::BadRequest,
{
    if callback_verdict(query, before) is Exchange {
        let code = callback_verdict(query, before)->Exchange_0;
        let exchanged = choose|exchanged: Result<TokenResponse, A::Error>| #[trigger]
            oauth.exchanged_and_completed(request, code, exchanged, outcome);
        if exchanged is Ok {
            assert(oauth.adapter().exchanges(&oauth.config(), code, Ok(exchanged->Ok_0)));
        }
    }
}

/// The last value of a name is the same with a field of another name put in.
proof fn lemma_last_value_with_other_field(
    fields: Seq<FieldText>,
    at: int,
    other: FieldText,
    name: Seq<char>,
)
    requires
        0 <= at <= fields.len(),
        other.name != name,
    ensures
        last_value(fields.insert(at, other), name) == last_value(fields, name),
    decreases fields.len() - at,
{
    let with = fields.insert(at, other);
    if at == fields.len() {
        assert(with.drop_last() == fields);
    } else {
        assert(with.last() == fields.last());
        assert(with.drop_last() == fields.drop_last().insert(at, other));
        lemma_last_value_with_other_field(fields.drop_last(), at, other, name);
    }
}

/// Every value of a name decodes with a field of another name put in exactly
/// if it does without.
proof fn lemma_well_encoded_with_other_field(
    fields: Seq<FieldText>,
    at: int,
    other: FieldText,
    name: Seq<char>,
)
    requires
        0 <= at <= fields.len(),
        other.name != name,
    ensures
        well_encoded(fields.insert(at, other), name) == well_encoded(fields, name),
{
    let with = fields.insert(at, other);
    if well_encoded(fields, name) {
        assert forall|i: int|
            0 <= i < with.len() && (#[trigger] with[i]).name == name implies with[i].value
            is Some by {
            if i < at {
                assert(with[i] == fields[i]);
            } else if i > at {
                assert(with[i] == fields[i - 1]);
            }
        }
    }
    if well_encoded(with, name) {
        assert forall|i: int|
            0 <= i < fields.len() && (#[trigger] fields[i]).name == name implies fields[i].value
            is Some by {
            if i < at {
                assert(with[i] == fields[i]);
            } else {
                assert(with[i + 1] == fields[i]);
            }
        }
    }
}

/// Fields of other names are passed over. A field that is neither `code` nor
/// `state`, put anywhere among the fields of a query, changes nothing in what
/// the query gives, whether its value decodes or not.
pub proof fn other_fields_are_passed_over(fields: Seq<FieldText>, at: int, other: FieldText)
    requires
        0 <= at <= fields.len(),
        other.name != "code"@,
        other.name != "state"@,
    ensures
        callback_params(fields.insert(at, other)) == callback_params(fields),
{
    lemma_last_value_with_other_field(fields, at, other, "code"@);
    lemma_last_value_with_other_field(fields, at, other, "state"@);
    lemma_well_encoded_with_other_field(fields, at, other, "code"@);
    lemma_well_encoded_with_other_field(fields, at, other, "state"@);
}

/// No field of a name has no last value.
proof fn lemma_last_value_of_missing_field(fields: Seq<FieldText>, name: Seq<char>)
    requires
        forall|i: int| 0 <= i < fields.len() ==> (#[trigger] fields[i]).name != name,
    ensures
        last_value(fields, name) is None,
    decreases fields.len(),
{
    if fields.len() > 0 {
        assert(fields[fields.len() - 1].name != name);
        let front = fields.drop_last();
        assert forall|i: int| 0 <= i < front.len() implies (#[trigger] front[i]).name != name by {
            assert(front[i] == fields[i]);
        }
        lemma_last_value_of_missing_field(front, name);
    }
}

/// Both `code` and `state` are needed. A query without a field `code`, or
/// without a field `state`, gives no parameters.
pub proof fn both_fields_are_needed(fields: Seq<FieldText>, name: Seq<char>)
    requires
        name == "code"@ || name == "state"@,
        forall|i: int| 0 <= i < fields.len() ==> (#[trigger] fields[i]).name != name,
    ensures
        callback_params(fields) is None,
{
    lemma_last_value_of_missing_field(fields, name);
}

/// A value that does not decode refuses the query. Where any field `code` or
/// `state` has a value that does not decode, the query gives no parameters,
/// even if a later field of the same name has one that does.
pub proof fn undecodable_value_is_refused(fields: Seq<FieldText>, at: int)
    requires
        0 <= at < fields.len(),
        fields[at].name == "code"@ || fields[at].name == "state"@,
        fields[at].value is None,
    ensures
        callback_params(fields) is None,
{
}

/// A well-known provider is what the table says. A configuration that
/// selects a provider by a name of the table gets the endpoints that the
/// table holds under that name, unchanged.
pub proof fn known_provider_is_looked_up(name: String, endpoints: Endpoints)
    requires
        known_endpoints(name@) == Some(endpoints),
    ensures
        configured_endpoints(ConfigValue::String(name)) == Ok::<Endpoints, ConfigFault>(endpoints),
{
}

/// A custom provider is what the configuration says. A configuration that
/// gives a provider by its two URIs, neither of them empty, gets a provider
/// with exactly these URIs.
pub proof fn custom_provider_reflects_its_uris(
    table: ConfigTable,
    auth_uri: String,
    token_uri: String,
)
    requires
        table@.get("auth_uri"@) == Some(ConfigValue::String(auth_uri)),
        table@.get("token_uri"@) == Some(ConfigValue::String(token_uri)),
        auth_uri@.len() > 0,
        token_uri@.len() > 0,
    ensures
        configured_endpoints(ConfigValue::Table(table)) == Ok::<Endpoints, ConfigFault>(
            Endpoints { auth_uri: auth_uri@, token_uri: token_uri@ },
        ),
{
}

/// Loading is idempotent. Two loads of the same client from the same
/// configuration agree: both give a configuration, with the same provider,
/// client id, client secret and redirect URI, or both give the same error.
pub proof fn config_load_is_idempotent(
    config: Map<Seq<char>, ConfigValue>,
    name: Seq<char>,
    first: Result<OAuthConfig, ConfigError>,
    second: Result<OAuthConfig, ConfigError>,
)
    requires
        loads(config, name, first),
        loads(config, name, second),
    ensures
        match (first, second) {
            (Ok(a), Ok(b)) => a@ == b@,
            (Err(a), Err(b)) => a@ == b@,
            _ => false,
        },
{
}

} // verus!
