//! The closed set of failures and the one place where they become visible to
//! a client.

use vstd::prelude::*;
use vstd::string::*;

verus! {

/// Everything that can go wrong while registering, signing in or presenting a
/// token.
#[derive(Debug, Clone, Copy, PartialEq, Eq, Structural)]
pub enum AuthError {
    /// Unknown identity, or a password that does not match the stored hash.
    WrongCredentials,
    /// The identity or the password of a request is empty.
    MissingCredentials,
    /// No bearer token, a malformed one, a bad signature or an expired token.
    InvalidToken,
    /// Signing a token failed.
    TokenCreation,
    /// The identity is already registered.
    UserAlreadyExists,
    /// The credential store failed; the cause is never passed on.
    DatabaseError,
    /// A password could not be hashed, or a stored hash is malformed.
    PasswordHashError,
}

/// What a client is told about a failure: a status and a message that leaks
/// no internal detail.
#[derive(Debug, Clone, PartialEq, Eq)]
pub struct ErrorResponse {
    pub status: u16,
    pub error: String,
}

impl AuthError {
    /// The HTTP status a failure is reported with.
    pub open spec fn status(self) -> u16 {
        match self {
            AuthError::WrongCredentials => 401,
            AuthError::MissingCredentials => 400,
            AuthError::InvalidToken => 401,
            AuthError::TokenCreation => 500,
            AuthError::UserAlreadyExists => 409,
            AuthError::DatabaseError => 500,
            AuthError::PasswordHashError => 500,
        }
    }

    /// The message a client gets to read.
    pub open spec fn client_message(self) -> Seq<char> {
        match self {
            AuthError::WrongCredentials => "Wrong credentials"@,
            AuthError::MissingCredentials => "Missing credentials"@,
            AuthError::InvalidToken => "Invalid token"@,
            AuthError::TokenCreation => "Token creation error"@,
            AuthError::UserAlreadyExists => "User already exists"@,
            AuthError::DatabaseError => "Database error"@,
            AuthError::PasswordHashError => "Password processing error"@,
        }
    }

    /// The text the failure is logged with. It differs from the client
    /// message for a hashing failure only.
    pub open spec fn description(self) -> Seq<char> {
        match self {
            AuthError::PasswordHashError => "Password hashing error"@,
            _ => self.client_message(),
        }
    }

    pub fn status_code(&self) -> (code: u16)
        ensures
            code == self.status(),
    {
        match self {
            AuthError::WrongCredentials => 401,
            AuthError::MissingCredentials => 400,
            AuthError::InvalidToken => 401,
            AuthError::TokenCreation => 500,
            AuthError::UserAlreadyExists => 409,
            AuthError::DatabaseError => 500,
            AuthError::PasswordHashError => 500,
        }
    }

    pub fn message(&self) -> (text: &'static str)
        ensures
            text@ == self.client_message(),
    {
        match self {
            AuthError::WrongCredentials => "Wrong credentials",
            AuthError::MissingCredentials => "Missing credentials",
            AuthError::InvalidToken => "Invalid token",
            AuthError::TokenCreation => "Token creation error",
            AuthError::UserAlreadyExists => "User already exists",
            AuthError::DatabaseError => "Database error",
            AuthError::PasswordHashError => "Password processing error",
        }
    }

    pub fn to_string(&self) -> (text: String)
        ensures
            text@ == self.description(),
    {
        match self {
            AuthError::PasswordHashError => String::from_str("Password hashing error"),
            _ => String::from_str(self.message()),
        }
    }

    /// Maps the failure to what the client sees. This is the only place where
    /// a failure kind turns into a status and a message.
    pub fn into_response(self) -> (response: ErrorResponse)
        ensures
            response.status == self.status(),
            response.error@ == self.client_message(),
    {
        ErrorResponse { status: self.status_code(), error: String::from_str(self.message()) }
    }
}

} // verus!
