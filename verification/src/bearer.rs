//! The guard in front of every protected operation.
//!
//! A protected request carries its token in the `Authorization` header, as a
//! bearer credential. The guard takes the raw value of that header, has the
//! `headers` crate (as re-exported by `axum_extra`) take the credential
//! apart, and has the token verified. It changes nothing; it only lets
//! through what it can vouch for.

use axum_extra::headers::authorization::Bearer;
use axum_extra::headers::Authorization;
use axum_extra::headers::Header;
use vstd::prelude::*;
use vstd::string::*;

use crate::error::AuthError;
use crate::token::{claims_view, verified_at, Claims, ClaimsView, Keys};

verus! {

/// A byte that may stand in a header value that is read as text: visible
/// ASCII, a space or a tab.
pub open spec fn header_text_byte(byte: u8) -> bool {
    (32 <= byte < 127) || byte == 9
}

/// A byte with an ASCII capital letter turned into its small letter.
pub open spec fn ascii_lower(byte: u8) -> u8 {
    if 65 <= byte <= 90 {
        (byte + 32) as u8
    } else {
        byte
    }
}

/// The value begins with the scheme `Bearer`, in capitals or not, and a
/// space.
pub open spec fn has_bearer_scheme(value: Seq<u8>) -> bool {
    &&& value.len() > 6
    &&& value[6] == 32
    &&& Seq::new(6, |i: int| ascii_lower(value[i])) == seq![98u8, 101u8, 97u8, 114u8, 101u8, 114u8]
}

/// The bytes without the spaces and tabs they begin with.
pub open spec fn trim_start(bytes: Seq<u8>) -> Seq<u8>
    decreases bytes.len(),
{
    if bytes.len() > 0 && (bytes[0] == 32 || bytes[0] == 9) {
        trim_start(bytes.drop_first())
    } else {
        bytes
    }
}

/// ASCII bytes as text.
pub open spec fn ascii_text(bytes: Seq<u8>) -> Seq<char> {
    Seq::new(bytes.len(), |i: int| bytes[i] as char)
}

/// The token of a bearer credential: what follows the scheme and the
/// whitespace after it, provided the whole value is text. `None` for any
/// other header value.
pub open spec fn bearer_token(value: Seq<u8>) -> Option<Seq<char>> {
    if has_bearer_scheme(value) && (forall|i: int|
        0 <= i < value.len() ==> header_text_byte(#[trigger] value[i])) {
        Some(ascii_text(trim_start(value.skip(7))))
    } else {
        None
    }
}

/// The view of a header value that may be missing.
pub open spec fn header_view(authorization: Option<&[u8]>) -> Option<Seq<u8>> {
    match authorization {
        Some(value) => Some(value@),
        None => None,
    }
}

/// What the guard makes of a request: without the header, and with a header
/// that is no bearer credential, the request is refused; otherwise the token
/// decides.
pub open spec fn admitted(authorization: Option<Seq<u8>>, secret: Seq<u8>, now: u64) -> Result<
    ClaimsView,
    AuthError,
> {
    match authorization {
        None => Err(AuthError::InvalidToken),
        Some(value) => match bearer_token(value) {
            None => Err(AuthError::InvalidToken),
            Some(token) => verified_at(secret, token, now),
        },
    }
}

/// Makes a `HeaderValue` of the `http` crate with `from_bytes`, decodes it
/// with `Authorization::<Bearer>::decode` of the `headers` crate and hands
/// out what `token` returns.
///
/// The contract writes out what those three do. `from_bytes` refuses control
/// bytes other than a tab; `decode` wants more than six bytes, `Bearer` in any
/// mix of capitals and small letters, a space as the seventh byte, and a
/// value that `to_str` accepts, which is visible ASCII, spaces and tabs;
/// `token` cuts off the first seven bytes and the whitespace that follows.
#[verifier::external_body]
fn parse_bearer(value: &[u8]) -> (token: Option<String>)
    ensures
        token matches Some(text) ==> bearer_token(value@) == Some(text@),
        token is None ==> bearer_token(value@) is None,
{
    let header = http::HeaderValue::from_bytes(value).ok()?;
    let mut values = std::iter::once(&header);
    let credential = Authorization::<Bearer>::decode(&mut values).ok()?;
    Some(credential.token().to_owned())
}

impl Claims {
    /// Turns the `Authorization` header of a request into the identity it
    /// vouches for at time `now`, or refuses the request.
    ///
    /// `authorization` is the first value of the header, or `None` if the
    /// request has none.
    pub fn from_header_at(authorization: Option<&[u8]>, keys: &Keys, now: u64) -> (claims: Result<
        Claims,
        AuthError,
    >)
        ensures
            claims_view(claims) == admitted(header_view(authorization), keys.secret(), now),
    {
        match authorization {
            None => Err(AuthError::InvalidToken),
            Some(value) => match parse_bearer(value) {
                None => Err(AuthError::InvalidToken),
                Some(token) => keys.verify_at(token.as_str(), now),
            },
        }
    }

    /// Turns the `Authorization` header of a request into the identity it
    /// vouches for at the time the system clock shows, or refuses the
    /// request.
    ///
    /// Whatever the clock showed, the outcome is that of
    /// [`Claims::from_header_at`] at that time. Without the header, and with
    /// a header that is no bearer credential, the request is refused before
    /// the clock is looked at.
    pub fn from_request_parts(authorization: Option<&[u8]>, keys: &Keys) -> (claims: Result<
        Claims,
        AuthError,
    >)
        ensures
            exists|now: u64|
                claims_view(claims) == #[trigger] admitted(
                    header_view(authorization),
                    keys.secret(),
                    now,
                ),
    {
        match authorization {
            None => {
                assert(claims_view(Err(AuthError::InvalidToken)) == admitted(
                    header_view(authorization),
                    keys.secret(),
                    0,
                ));
                Err(AuthError::InvalidToken)
            },
            Some(value) => match parse_bearer(value) {
                None => {
                    assert(claims_view(Err(AuthError::InvalidToken)) == admitted(
                        header_view(authorization),
                        keys.secret(),
                        0,
                    ));
                    Err(AuthError::InvalidToken)
                },
                Some(token) => {
                    let claims = keys.verify(token.as_str());
                    let ghost now = choose|now: u64|
                        claims_view(claims) == #[trigger] verified_at(keys.secret(), token@, now);
                    assert(claims_view(claims) == admitted(
                        header_view(authorization),
                        keys.secret(),
                        now,
                    ));
                    claims
                },
            },
        }
    }
}

/// No request gets past the guard without a token that opens under the keys:
/// not one without the header, not one whose header is no bearer credential,
/// and not one whose token the keys do not open.
pub proof fn lemma_guard_refuses(authorization: Option<Seq<u8>>, secret: Seq<u8>, now: u64)
    requires
        authorization matches Some(value) ==> (bearer_token(value) matches Some(token)
            ==> crate::token::hs256_claims(token, secret) is None),
    ensures
        admitted(authorization, secret, now) == Err::<ClaimsView, AuthError>(AuthError::InvalidToken),
{
}

} // verus!
