//! The three operations of the service, on plain values.
//!
//! Each function is what the handler of a route computes once the request has
//! been read: [`register`] for `POST /register`, [`authorize`] for
//! `POST /authorize`, [`check`] for `GET /check`. Reading the request,
//! reading the clock and writing the response is the caller's part.

use vstd::prelude::*;
use vstd::string::*;

use crate::cookie::{session_cookie, session_cookie_name, session_policy, set_cookie_text};
use crate::error::AuthError;
use crate::messages::{AuthResponse, AuthResponseView, RegisterResponse, User, UserView};
use crate::password::{hash_outcome, HashParams};
use crate::store::{
    answer_view,
    authenticated,
    register_outcome,
    registered,
    Credentials,
    DbAuth,
};
use crate::token::{carries, hs256_token, Claims, ClaimsView, Keys};

verus! {

/// The page a verified bearer is greeted with.
pub open spec fn welcome(claims: ClaimsView) -> Seq<char> {
    "Welcome to the protected area :)\nYour data:\n"@ + claims.text()
}

/// What a sign-in is answered with, once the user is authenticated: the
/// `Set-Cookie` header that carries the token, and the body. Signing the
/// token is the one thing that can still fail.
pub open spec fn session(secret: Seq<u8>, claims: ClaimsView) -> Result<
    (Seq<char>, AuthResponseView),
    AuthError,
> {
    match hs256_token(claims.sub, claims.exp, secret) {
        Some(token) => Ok(
            (
                set_cookie_text(session_cookie_name(), token, session_policy()),
                AuthResponse::authenticated(),
            ),
        ),
        None => Err(AuthError::TokenCreation),
    }
}

/// What a sign-in against a table comes to.
pub open spec fn authorized(table: Credentials, secret: Seq<u8>, user: UserView) -> Result<
    (Seq<char>, AuthResponseView),
    AuthError,
> {
    if !user.complete() {
        Err(AuthError::MissingCredentials)
    } else {
        match authenticated(table, user) {
            Ok(claims) => session(secret, claims),
            Err(error) => Err(error),
        }
    }
}

/// The view of the answer to a sign-in.
pub open spec fn session_view(answer: Result<(String, AuthResponse), AuthError>) -> Result<
    (Seq<char>, AuthResponseView),
    AuthError,
> {
    match answer {
        Ok((cookie, body)) => Ok((cookie@, body@)),
        Err(error) => Err(error),
    }
}

/// Greets the bearer of verified claims. The claims are the proof that the
/// request came past the guard; nothing else is checked here.
pub fn check(claims: Claims) -> (page: Result<String, AuthError>)
    ensures
        page matches Ok(text) && text@ == welcome(claims@),
{
    let shown = claims.to_string();
    Ok(String::from_str("Welcome to the protected area :)\nYour data:\n").concat(shown.as_str()))
}

/// Registers the user of a request, after refusing a request without an
/// identity or without a password.
///
/// A request that is refused for an empty field leaves the table as it is.
/// Any other request is answered as [`DbAuth::register_user`] answers it.
pub fn register(db_auth: &mut DbAuth, payload: User, params: &HashParams, now: u64) -> (answer: Result<
    RegisterResponse,
    AuthError,
>)
    ensures
        !payload@.complete() ==> final(db_auth)@ == old(db_auth)@ && answer_view(answer) == Err::<
            Seq<char>,
            AuthError,
        >(AuthError::MissingCredentials),
        payload@.complete() ==> registered(
            old(db_auth)@,
            payload@,
            now,
            final(db_auth)@,
            answer_view(answer),
        ),
        payload@.complete() ==> exists|salt: Seq<char>|
            (final(db_auth)@, answer_view(answer)) == register_outcome(
                old(db_auth)@,
                payload@,
                now,
                #[trigger] hash_outcome(payload@.password, salt, *params),
            ),
{
    match payload.require_credentials() {
        Err(error) => Err(error),
        Ok(()) => db_auth.register_user(payload, params, now),
    }
}

/// Issues the token for authenticated claims and wraps it for the response:
/// the value of the `Set-Cookie` header, and the body.
pub fn login_response(keys: &Keys, claims: &Claims) -> (answer: Result<
    (String, AuthResponse),
    AuthError,
>)
    ensures
        session_view(answer) == session(keys.secret(), claims@),
        answer is Ok ==> carries(
            hs256_token(claims@.sub, claims@.exp, keys.secret())->0,
            keys.secret(),
            claims@,
        ),
{
    match keys.issue(claims) {
        Ok(token) => Ok((session_cookie(token.as_str()), AuthResponse::success())),
        Err(error) => Err(error),
    }
}

/// Signs the user of a request in, after refusing a request without an
/// identity or without a password.
pub fn authorize(db_auth: &DbAuth, keys: &Keys, payload: User) -> (answer: Result<
    (String, AuthResponse),
    AuthError,
>)
    ensures
        session_view(answer) == authorized(db_auth@, keys.secret(), payload@),
{
    match payload.require_credentials() {
        Err(error) => Err(error),
        Ok(()) => match db_auth.authenticate_user(payload) {
            Ok(claims) => login_response(keys, &claims),
            Err(error) => Err(error),
        },
    }
}

} // verus!
