//! The values that cross the boundary of the service: what a client sends and
//! what it is answered.

use vstd::prelude::*;
use vstd::string::*;

use crate::error::AuthError;

verus! {

/// An identity and the secret that goes with it, as sent for registration and
/// for signing in. The secret is never stored; only its hash is.
#[derive(Debug, Clone)]
pub struct User {
    email: String,
    password: String,
}

/// What a [`User`] holds.
pub struct UserView {
    pub email: Seq<char>,
    pub password: Seq<char>,
}

impl View for User {
    type V = UserView;

    closed spec fn view(&self) -> UserView {
        UserView { email: self.email@, password: self.password@ }
    }
}

impl UserView {
    /// Neither the identity nor the secret is empty.
    pub open spec fn complete(self) -> bool {
        self.email.len() > 0 && self.password.len() > 0
    }
}

impl User {
    pub fn new(email: String, password: String) -> (user: User)
        ensures
            user@.email == email@,
            user@.password == password@,
    {
        User { email, password }
    }

    pub fn email(&self) -> (email: &str)
        ensures
            email@ == self@.email,
    {
        self.email.as_str()
    }

    pub fn password(&self) -> (password: &str)
        ensures
            password@ == self@.password,
    {
        self.password.as_str()
    }

    /// Refuses a request whose identity or secret is empty.
    pub fn require_credentials(&self) -> (checked: Result<(), AuthError>)
        ensures
            self@.complete() ==> checked == Ok::<(), AuthError>(()),
            !self@.complete() ==> checked == Err::<(), AuthError>(AuthError::MissingCredentials),
    {
        if self.email.as_str().is_empty() || self.password.as_str().is_empty() {
            Err(AuthError::MissingCredentials)
        } else {
            Ok(())
        }
    }
}

/// The answer to a successful registration.
#[derive(Debug, Clone)]
pub struct RegisterResponse {
    message: String,
}

impl View for RegisterResponse {
    type V = Seq<char>;

    closed spec fn view(&self) -> Seq<char> {
        self.message@
    }
}

impl RegisterResponse {
    /// The message every successful registration is answered with.
    pub open spec fn registered_message() -> Seq<char> {
        "User registered successfully"@
    }

    pub fn new(message: String) -> (response: RegisterResponse)
        ensures
            response@ == message@,
    {
        RegisterResponse { message }
    }

    /// The answer to a registration that went through.
    pub fn registered() -> (response: RegisterResponse)
        ensures
            response@ == Self::registered_message(),
    {
        RegisterResponse { message: String::from_str("User registered successfully") }
    }

    pub fn message(&self) -> (message: &str)
        ensures
            message@ == self@,
    {
        self.message.as_str()
    }
}

/// The body that answers a successful sign-in.
#[derive(Debug, Clone)]
pub struct AuthResponse {
    status: String,
    message: String,
}

/// What an [`AuthResponse`] holds.
pub struct AuthResponseView {
    pub status: Seq<char>,
    pub message: Seq<char>,
}

impl View for AuthResponse {
    type V = AuthResponseView;

    closed spec fn view(&self) -> AuthResponseView {
        AuthResponseView { status: self.status@, message: self.message@ }
    }
}

impl AuthResponse {
    /// The body every successful sign-in is answered with.
    pub open spec fn authenticated() -> AuthResponseView {
        AuthResponseView { status: "success"@, message: "Authentication successful"@ }
    }

    pub fn new(status: String, message: String) -> (response: AuthResponse)
        ensures
            response@.status == status@,
            response@.message == message@,
    {
        AuthResponse { status, message }
    }

    /// The answer to a sign-in that went through.
    pub fn success() -> (response: AuthResponse)
        ensures
            response@ == Self::authenticated(),
    {
        AuthResponse {
            status: String::from_str("success"),
            message: String::from_str("Authentication successful"),
        }
    }

    pub fn status(&self) -> (status: &str)
        ensures
            status@ == self@.status,
    {
        self.status.as_str()
    }

    pub fn message(&self) -> (message: &str)
        ensures
            message@ == self@.message,
    {
        self.message.as_str()
    }
}

/// A token together with the scheme it is presented under.
#[derive(Debug, Clone)]
pub struct AuthBody {
    access_token: String,
    token_type: String,
}

/// What an [`AuthBody`] holds.
pub struct AuthBodyView {
    pub access_token: Seq<char>,
    pub token_type: Seq<char>,
}

impl View for AuthBody {
    type V = AuthBodyView;

    closed spec fn view(&self) -> AuthBodyView {
        AuthBodyView { access_token: self.access_token@, token_type: self.token_type@ }
    }
}

impl AuthBody {
    /// Wraps a token as a bearer credential.
    pub fn new(access_token: String) -> (body: AuthBody)
        ensures
            body@.access_token == access_token@,
            body@.token_type == "Bearer"@,
    {
        AuthBody { access_token, token_type: String::from_str("Bearer") }
    }

    pub fn access_token(&self) -> (token: &str)
        ensures
            token@ == self@.access_token,
    {
        self.access_token.as_str()
    }

    pub fn token_type(&self) -> (scheme: &str)
        ensures
            scheme@ == self@.token_type,
    {
        self.token_type.as_str()
    }
}

} // verus!
