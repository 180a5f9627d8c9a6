//! Signed, expiring identity assertions.
//!
//! A token is a JSON Web Token signed with HMAC-SHA256 by the `jsonwebtoken`
//! crate. Nothing is kept on the server: whether a token is valid is decided
//! by its signature and its expiry alone. The signature and the structure are
//! checked by the crate; the expiry is checked here, against the system clock
//! or a time of the caller's choosing, with no period of grace.

use vstd::prelude::*;
use vstd::slice::slice_to_vec;
use vstd::string::*;

use crate::error::AuthError;

verus! {

/// The expiry every sign-in puts into its token, in seconds since the epoch.
pub const TOKEN_EXPIRY: u64 = 2_000_000_000;

/// The signed payload: who the bearer is, and until when the assertion holds.
#[derive(Debug, Clone)]
pub struct Claims {
    sub: String,
    exp: u64,
}

/// What a [`Claims`] holds.
pub struct ClaimsView {
    pub sub: Seq<char>,
    pub exp: u64,
}

impl View for Claims {
    type V = ClaimsView;

    closed spec fn view(&self) -> ClaimsView {
        ClaimsView { sub: self.sub@, exp: self.exp }
    }
}

impl ClaimsView {
    /// How the claims are shown to their bearer.
    pub open spec fn text(self) -> Seq<char> {
        "Email: "@ + self.sub
    }
}

impl Claims {
    pub fn new(sub: String, exp: u64) -> (claims: Claims)
        ensures
            claims@.sub == sub@,
            claims@.exp == exp,
    {
        Claims { sub, exp }
    }

    pub fn sub(&self) -> (sub: &str)
        ensures
            sub@ == self@.sub,
    {
        self.sub.as_str()
    }

    pub fn exp(&self) -> (exp: u64)
        ensures
            exp == self@.exp,
    {
        self.exp
    }

    pub fn to_string(&self) -> (text: String)
        ensures
            text@ == self@.text(),
    {
        String::from_str("Email: ").concat(self.sub.as_str())
    }
}

/// The token that signing these claims with this secret gives: the header of
/// an HS256 token, the claims as a JSON object with the members `exp` and
/// `sub`, and the signature over both. `None` where signing fails.
pub uninterp spec fn hs256_token(sub: Seq<char>, exp: u64, secret: Seq<u8>) -> Option<Seq<char>>;

/// What a token shows under a secret. `None` where the crate refuses the
/// token, as it does for one that has not the three parts of a token, does
/// not name HS256, is not signed with the secret or carries no expiry;
/// otherwise the member `sub` of its claims if that is a string, and the
/// member `exp` if that is an unsigned integer.
pub uninterp spec fn hs256_claims(token: Seq<char>, secret: Seq<u8>) -> Option<
    (Option<Seq<char>>, Option<u64>),
>;

/// The view of what decoding gave.
pub open spec fn decoded_view(decoded: Option<(Option<String>, Option<u64>)>) -> Option<
    (Option<Seq<char>>, Option<u64>),
> {
    match decoded {
        Some((Some(sub), exp)) => Some((Some(sub@), exp)),
        Some((None, exp)) => Some((None, exp)),
        None => None,
    }
}

/// The view of a verification result.
pub open spec fn claims_view(verified: Result<Claims, AuthError>) -> Result<ClaimsView, AuthError> {
    match verified {
        Ok(claims) => Ok(claims@),
        Err(error) => Err(error),
    }
}

/// The token carries exactly these claims under this secret.
pub open spec fn carries(token: Seq<char>, secret: Seq<u8>, claims: ClaimsView) -> bool {
    hs256_claims(token, secret) == Some((Some(claims.sub), Some(claims.exp)))
}

/// What the decoded parts of a token come to at time `now`: the claims, if
/// both are there and the expiry is not in the past.
pub open spec fn claims_at(decoded: Option<(Option<Seq<char>>, Option<u64>)>, now: u64) -> Result<
    ClaimsView,
    AuthError,
> {
    match decoded {
        Some((Some(sub), Some(exp))) => if exp < now {
            Err(AuthError::InvalidToken)
        } else {
            Ok(ClaimsView { sub, exp })
        },
        _ => Err(AuthError::InvalidToken),
    }
}

/// What verifying `token` under `secret` at time `now` comes to.
pub open spec fn verified_at(secret: Seq<u8>, token: Seq<char>, now: u64) -> Result<
    ClaimsView,
    AuthError,
> {
    claims_at(hs256_claims(token, secret), now)
}

/// Calls `encode` of `jsonwebtoken` with the default header (HS256), a key
/// made by `EncodingKey::from_secret`, and the claims as a JSON object.
///
/// The result depends on the arguments alone, so it has a name. One fact is
/// taken from the crate's source: decoding a token that came out, under the
/// same secret, gives back the subject and the expiry that went in.
#[verifier::external_body]
fn jwt_encode(sub: &str, exp: u64, secret: &[u8]) -> (token: Option<String>)
    ensures
        token matches Some(text) ==> hs256_token(sub@, exp, secret@) == Some(text@),
        token is None ==> hs256_token(sub@, exp, secret@) is None,
        token matches Some(text) ==> hs256_claims(text@, secret@) == Some((Some(sub@), Some(exp))),
{
    let mut claims = serde_json::Map::new();
    claims.insert("sub".to_owned(), serde_json::Value::from(sub));
    claims.insert("exp".to_owned(), serde_json::Value::from(exp));
    let key = jsonwebtoken::EncodingKey::from_secret(secret);
    jsonwebtoken::encode(&jsonwebtoken::Header::default(), &claims, &key).ok()
}

/// Calls `decode` of `jsonwebtoken` with a key made by
/// `DecodingKey::from_secret` and the default validation for HS256, except
/// that the crate does not compare the expiry with its own clock. The two
/// claims are handed out as plain values.
#[verifier::external_body]
fn jwt_decode(token: &str, secret: &[u8]) -> (decoded: Option<(Option<String>, Option<u64>)>)
    ensures
        decoded_view(decoded) == hs256_claims(token@, secret@),
{
    let mut validation = jsonwebtoken::Validation::new(jsonwebtoken::Algorithm::HS256);
    validation.validate_exp = false;
    let key = jsonwebtoken::DecodingKey::from_secret(secret);
    let data = jsonwebtoken::decode::<serde_json::Value>(token, &key, &validation).ok()?;
    let sub = data.claims.get("sub").and_then(|value| value.as_str()).map(|text| text.to_owned());
    let exp = data.claims.get("exp").and_then(|value| value.as_u64());
    Some((sub, exp))
}

/// Calls `get_current_timestamp` of `jsonwebtoken`: the seconds that the
/// system clock counts since the epoch. Nothing is claimed of the result. The
/// crate does not return on a clock that is set before the epoch.
#[verifier::external_body]
fn current_timestamp() -> u64 {
    jsonwebtoken::get_current_timestamp()
}

/// Decides what the decoded parts of a token are worth at time `now`.
///
/// A token without a subject or without an expiry is invalid, and so is one
/// whose expiry lies before `now`. At the expiry instant itself the token
/// still holds.
pub fn accept_claims(decoded: Option<(Option<String>, Option<u64>)>, now: u64) -> (verified: Result<
    Claims,
    AuthError,
>)
    ensures
        claims_view(verified) == claims_at(decoded_view(decoded), now),
{
    match decoded {
        Some((Some(sub), Some(exp))) => {
            if exp < now {
                Err(AuthError::InvalidToken)
            } else {
                Ok(Claims { sub, exp })
            }
        },
        _ => Err(AuthError::InvalidToken),
    }
}

/// The signing secret of the process: made once at startup, never changed.
#[derive(Debug)]
pub struct Keys {
    secret: Vec<u8>,
}

impl Keys {
    /// The secret the keys were made from.
    pub closed spec fn secret(&self) -> Seq<u8> {
        self.secret@
    }

    /// A key is never empty.
    #[verifier::type_invariant]
    pub closed spec fn wf(&self) -> bool {
        self.secret@.len() > 0
    }

    /// Makes the keys from the process's secret. Starting without a secret is
    /// a configuration error that the caller has to stop on.
    pub fn new(secret: &[u8]) -> (keys: Keys)
        requires
            secret@.len() > 0,
        ensures
            keys.secret() == secret@,
    {
        let copied = slice_to_vec(secret);
        Keys { secret: copied }
    }

    /// Signs `claims`. A token that comes out carries exactly these claims.
    pub fn issue(&self, claims: &Claims) -> (issued: Result<String, AuthError>)
        ensures
            issued matches Ok(token) ==> {
                &&& hs256_token(claims@.sub, claims@.exp, self.secret()) == Some(token@)
                &&& carries(token@, self.secret(), claims@)
            },
            issued matches Err(error) ==> {
                &&& error == AuthError::TokenCreation
                &&& hs256_token(claims@.sub, claims@.exp, self.secret()) is None
            },
    {
        match jwt_encode(claims.sub.as_str(), claims.exp, self.secret.as_slice()) {
            Some(token) => Ok(token),
            None => Err(AuthError::TokenCreation),
        }
    }

    /// Verifies `token` at time `now`, in seconds since the epoch.
    ///
    /// The token is refused as [`AuthError::InvalidToken`] if it is malformed,
    /// if it is not signed with these keys, if it lacks a subject or an
    /// expiry, or if its expiry lies before `now`.
    pub fn verify_at(&self, token: &str, now: u64) -> (verified: Result<Claims, AuthError>)
        ensures
            claims_view(verified) == verified_at(self.secret(), token@, now),
    {
        accept_claims(jwt_decode(token, self.secret.as_slice()), now)
    }

    /// Verifies `token` at the time the system clock shows.
    ///
    /// Whatever the clock showed, the outcome is that of [`Keys::verify_at`]
    /// at that time.
    pub fn verify(&self, token: &str) -> (verified: Result<Claims, AuthError>)
        ensures
            exists|now: u64| claims_view(verified) == #[trigger] verified_at(self.secret(), token@, now),
    {
        let now = current_timestamp();
        let verified = self.verify_at(token, now);
        assert(claims_view(verified) == verified_at(self.secret(), token@, now));
        verified
    }
}

/// A token verifies to the claims it carries for as long as its expiry has
/// not passed, and is invalid from then on.
pub proof fn lemma_token_valid_until_expiry(
    secret: Seq<u8>,
    token: Seq<char>,
    claims: ClaimsView,
    now: u64,
)
    requires
        carries(token, secret, claims),
    ensures
        now <= claims.exp ==> verified_at(secret, token, now) == Ok::<ClaimsView, AuthError>(claims),
        now > claims.exp ==> verified_at(secret, token, now) == Err::<ClaimsView, AuthError>(
            AuthError::InvalidToken,
        ),
{
}

} // verus!
