//! Signing in as a state machine.
//!
//! To authenticate a user the stored hash has to be fetched from the
//! credential store and the password checked against it. The machine decides;
//! its driver carries out each [`LoginAction`] and reports back with a
//! [`LoginEvent`]. A sign-in that goes through ends with the claims that the
//! token of the session will carry.

use vstd::prelude::*;
use vstd::string::*;

use crate::error::AuthError;
use crate::messages::{User, UserView};
use crate::token::{Claims, ClaimsView, TOKEN_EXPIRY};

verus! {

/// Where a sign-in stands.
#[derive(Debug, Clone, Copy, PartialEq, Eq, Structural)]
pub enum LoginStep {
    /// The store has been asked for the hash stored with the identity.
    AwaitingHash,
    /// The password is being checked against the stored hash.
    AwaitingVerdict,
    /// The password matched.
    Authenticated,
    /// The sign-in failed.
    Rejected(AuthError),
}

/// What the driver is asked to do next.
#[derive(Debug)]
pub enum LoginAction {
    /// Fetch the hash stored with this identity.
    FetchHash { email: String },
    /// Check this password against this hash.
    VerifyPassword { password: String, password_hash: String },
    /// Nothing is left to do: this is the outcome of the sign-in.
    Finish { result: Result<Claims, AuthError> },
}

pub enum LoginActionView {
    FetchHash { email: Seq<char> },
    VerifyPassword { password: Seq<char>, password_hash: Seq<char> },
    Finish { result: Result<ClaimsView, AuthError> },
}

impl View for LoginAction {
    type V = LoginActionView;

    open spec fn view(&self) -> LoginActionView {
        match *self {
            LoginAction::FetchHash { email } => LoginActionView::FetchHash { email: email@ },
            LoginAction::VerifyPassword { password, password_hash } => LoginActionView::VerifyPassword {
                password: password@,
                password_hash: password_hash@,
            },
            LoginAction::Finish { result } => LoginActionView::Finish {
                result: match result {
                    Ok(claims) => Ok(claims@),
                    Err(error) => Err(error),
                },
            },
        }
    }
}

/// What the driver reports back.
#[derive(Debug)]
pub enum LoginEvent {
    /// The store holds this hash for the identity.
    Found(String),
    /// The store holds no record for the identity.
    NotFound,
    /// What checking the password came to.
    Checked(Result<bool, AuthError>),
    /// The store failed.
    StoreFailed,
}

pub enum LoginEventView {
    Found(Seq<char>),
    NotFound,
    Checked(Result<bool, AuthError>),
    StoreFailed,
}

impl View for LoginEvent {
    type V = LoginEventView;

    open spec fn view(&self) -> LoginEventView {
        match *self {
            LoginEvent::Found(password_hash) => LoginEventView::Found(password_hash@),
            LoginEvent::NotFound => LoginEventView::NotFound,
            LoginEvent::Checked(verdict) => LoginEventView::Checked(verdict),
            LoginEvent::StoreFailed => LoginEventView::StoreFailed,
        }
    }
}

/// One sign-in in progress.
#[derive(Debug)]
pub struct Login {
    user: User,
    step: LoginStep,
}

pub struct LoginView {
    pub user: UserView,
    pub step: LoginStep,
}

impl View for Login {
    type V = LoginView;

    closed spec fn view(&self) -> LoginView {
        LoginView { user: self.user@, step: self.step }
    }
}

impl LoginView {
    /// The sign-in as it begins, and the first thing it asks for.
    pub open spec fn start(user: UserView) -> (LoginView, LoginActionView) {
        (
            LoginView { user, step: LoginStep::AwaitingHash },
            LoginActionView::FetchHash { email: user.email },
        )
    }

    /// The sign-in has its outcome.
    pub open spec fn closed(self) -> bool {
        self.step is Authenticated || self.step is Rejected
    }

    /// The claims a successful sign-in ends with.
    pub open spec fn claims(self) -> ClaimsView {
        ClaimsView { sub: self.user.email, exp: TOKEN_EXPIRY }
    }

    /// The sign-in stopped with this failure.
    pub open spec fn reject(self, error: AuthError) -> (LoginView, LoginActionView) {
        (
            LoginView { user: self.user, step: LoginStep::Rejected(error) },
            LoginActionView::Finish { result: Err(error) },
        )
    }

    /// The sign-in went through.
    pub open spec fn accept(self) -> (LoginView, LoginActionView) {
        (
            LoginView { user: self.user, step: LoginStep::Authenticated },
            LoginActionView::Finish { result: Ok(self.claims()) },
        )
    }

    /// The transition function: the state after `event`, and what to do next.
    ///
    /// An unknown identity and a wrong password are answered alike. A failed
    /// check is passed on as it is. An answer the sign-in is not waiting for
    /// counts as a failure of the store. A closed sign-in stays closed and
    /// repeats its outcome.
    pub open spec fn next(self, event: LoginEventView) -> (LoginView, LoginActionView) {
        match self.step {
            LoginStep::AwaitingHash => match event {
                LoginEventView::Found(password_hash) => (
                    LoginView { user: self.user, step: LoginStep::AwaitingVerdict },
                    LoginActionView::VerifyPassword { password: self.user.password, password_hash },
                ),
                LoginEventView::NotFound => self.reject(AuthError::WrongCredentials),
                _ => self.reject(AuthError::DatabaseError),
            },
            LoginStep::AwaitingVerdict => match event {
                LoginEventView::Checked(Ok(true)) => self.accept(),
                LoginEventView::Checked(Ok(false)) => self.reject(AuthError::WrongCredentials),
                LoginEventView::Checked(Err(error)) => self.reject(error),
                _ => self.reject(AuthError::DatabaseError),
            },
            LoginStep::Authenticated => self.accept(),
            LoginStep::Rejected(error) => self.reject(error),
        }
    }
}

impl Login {
    /// Begins the sign-in of `user`.
    pub fn start(user: User) -> (begun: (Login, LoginAction))
        ensures
            (begun.0@, begun.1@) == LoginView::start(user@),
    {
        let email = String::from_str(user.email());
        (Login { user, step: LoginStep::AwaitingHash }, LoginAction::FetchHash { email })
    }

    pub fn current_step(&self) -> (step: LoginStep)
        ensures
            step == self@.step,
    {
        self.step
    }

    pub fn user(&self) -> (user: &User)
        ensures
            user@ == self@.user,
    {
        &self.user
    }

    fn reject(self, error: AuthError) -> (closed: (Login, LoginAction))
        ensures
            (closed.0@, closed.1@) == self@.reject(error),
    {
        (
            Login { user: self.user, step: LoginStep::Rejected(error) },
            LoginAction::Finish { result: Err(error) },
        )
    }

    fn accept(self) -> (closed: (Login, LoginAction))
        ensures
            (closed.0@, closed.1@) == self@.accept(),
    {
        let claims = Claims::new(String::from_str(self.user.email()), TOKEN_EXPIRY);
        (
            Login { user: self.user, step: LoginStep::Authenticated },
            LoginAction::Finish { result: Ok(claims) },
        )
    }

    /// Takes what the driver reports and decides what happens next.
    pub fn step(self, event: LoginEvent) -> (moved: (Login, LoginAction))
        ensures
            (moved.0@, moved.1@) == self@.next(event@),
    {
        match self.step {
            LoginStep::AwaitingHash => match event {
                LoginEvent::Found(password_hash) => {
                    let password = String::from_str(self.user.password());
                    (
                        Login { user: self.user, step: LoginStep::AwaitingVerdict },
                        LoginAction::VerifyPassword { password, password_hash },
                    )
                },
                LoginEvent::NotFound => self.reject(AuthError::WrongCredentials),
                _ => self.reject(AuthError::DatabaseError),
            },
            LoginStep::AwaitingVerdict => match event {
                LoginEvent::Checked(Ok(true)) => self.accept(),
                LoginEvent::Checked(Ok(false)) => self.reject(AuthError::WrongCredentials),
                LoginEvent::Checked(Err(error)) => self.reject(error),
                _ => self.reject(AuthError::DatabaseError),
            },
            LoginStep::Authenticated => self.accept(),
            LoginStep::Rejected(error) => self.reject(error),
        }
    }
}

} // verus!
