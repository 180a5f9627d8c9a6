//! Registration as a state machine.
//!
//! Registering a user takes three things the machine cannot do itself: asking
//! the credential store whether the identity is taken, hashing the password,
//! and inserting the record. The machine decides; its driver carries out each
//! [`RegisterAction`] and reports back with a [`RegisterEvent`].
//!
//! The existence check is an optimisation only. Two registrations of one
//! identity may both be told that it is free; the store's uniqueness
//! constraint settles which of them wins, and the loser is answered with
//! [`AuthError::UserAlreadyExists`] when its insert is refused.

use vstd::prelude::*;
use vstd::string::*;

use crate::error::AuthError;
use crate::messages::{RegisterResponse, User, UserView};

verus! {

/// Where a registration stands.
#[derive(Debug, Clone, Copy, PartialEq, Eq, Structural)]
pub enum RegisterStep {
    /// The store has been asked whether the identity is taken.
    AwaitingExists,
    /// The password is being hashed.
    AwaitingHash,
    /// The store has been asked to insert the record.
    AwaitingInsert,
    /// The record is stored.
    Registered,
    /// The registration failed.
    Rejected(AuthError),
}

/// What the driver is asked to do next.
#[derive(Debug)]
pub enum RegisterAction {
    /// Ask the store whether a record with this identity exists.
    QueryExists { email: String },
    /// Hash this password with a fresh salt.
    HashPassword { password: String },
    /// Insert this record; the store refuses it if the identity is taken.
    InsertUser { email: String, password_hash: String },
    /// Nothing is left to do: this is the answer to the request.
    Finish { result: Result<RegisterResponse, AuthError> },
}

pub enum RegisterActionView {
    QueryExists { email: Seq<char> },
    HashPassword { password: Seq<char> },
    InsertUser { email: Seq<char>, password_hash: Seq<char> },
    Finish { result: Result<Seq<char>, AuthError> },
}

impl View for RegisterAction {
    type V = RegisterActionView;

    open spec fn view(&self) -> RegisterActionView {
        match *self {
            RegisterAction::QueryExists { email } => RegisterActionView::QueryExists {
                email: email@,
            },
            RegisterAction::HashPassword { password } => RegisterActionView::HashPassword {
                password: password@,
            },
            RegisterAction::InsertUser { email, password_hash } => RegisterActionView::InsertUser {
                email: email@,
                password_hash: password_hash@,
            },
            RegisterAction::Finish { result } => RegisterActionView::Finish {
                result: match result {
                    Ok(response) => Ok(response@),
                    Err(error) => Err(error),
                },
            },
        }
    }
}

/// What the driver reports back.
#[derive(Debug)]
pub enum RegisterEvent {
    /// The answer to [`RegisterAction::QueryExists`].
    Exists(bool),
    /// The hash asked for by [`RegisterAction::HashPassword`].
    Hashed(String),
    /// The password could not be hashed.
    HashFailed,
    /// The record asked for by [`RegisterAction::InsertUser`] is stored.
    Inserted,
    /// The store refused the record: the identity is taken.
    Duplicate,
    /// The store failed.
    StoreFailed,
}

pub enum RegisterEventView {
    Exists(bool),
    Hashed(Seq<char>),
    HashFailed,
    Inserted,
    Duplicate,
    StoreFailed,
}

impl View for RegisterEvent {
    type V = RegisterEventView;

    open spec fn view(&self) -> RegisterEventView {
        match *self {
            RegisterEvent::Exists(taken) => RegisterEventView::Exists(taken),
            RegisterEvent::Hashed(password_hash) => RegisterEventView::Hashed(password_hash@),
            RegisterEvent::HashFailed => RegisterEventView::HashFailed,
            RegisterEvent::Inserted => RegisterEventView::Inserted,
            RegisterEvent::Duplicate => RegisterEventView::Duplicate,
            RegisterEvent::StoreFailed => RegisterEventView::StoreFailed,
        }
    }
}

/// One registration in progress.
#[derive(Debug)]
pub struct Registration {
    user: User,
    step: RegisterStep,
}

pub struct RegistrationView {
    pub user: UserView,
    pub step: RegisterStep,
}

impl View for Registration {
    type V = RegistrationView;

    closed spec fn view(&self) -> RegistrationView {
        RegistrationView { user: self.user@, step: self.step }
    }
}

impl RegistrationView {
    /// The registration as it begins, and the first thing it asks for.
    pub open spec fn start(user: UserView) -> (RegistrationView, RegisterActionView) {
        (
            RegistrationView { user, step: RegisterStep::AwaitingExists },
            RegisterActionView::QueryExists { email: user.email },
        )
    }

    /// The registration has its answer.
    pub open spec fn closed(self) -> bool {
        self.step is Registered || self.step is Rejected
    }

    /// The registration stopped with this failure.
    pub open spec fn reject(self, error: AuthError) -> (RegistrationView, RegisterActionView) {
        (
            RegistrationView { user: self.user, step: RegisterStep::Rejected(error) },
            RegisterActionView::Finish { result: Err(error) },
        )
    }

    /// The registration went through.
    pub open spec fn accept(self) -> (RegistrationView, RegisterActionView) {
        (
            RegistrationView { user: self.user, step: RegisterStep::Registered },
            RegisterActionView::Finish { result: Ok(RegisterResponse::registered_message()) },
        )
    }

    /// The transition function: the state after `event`, and what to do next.
    ///
    /// An answer the registration is not waiting for counts as a failure of
    /// the store. A closed registration stays closed and repeats its answer.
    pub open spec fn next(self, event: RegisterEventView) -> (RegistrationView, RegisterActionView) {
        match self.step {
            RegisterStep::AwaitingExists => match event {
                RegisterEventView::Exists(false) => (
                    RegistrationView { user: self.user, step: RegisterStep::AwaitingHash },
                    RegisterActionView::HashPassword { password: self.user.password },
                ),
                RegisterEventView::Exists(true) => self.reject(AuthError::UserAlreadyExists),
                _ => self.reject(AuthError::DatabaseError),
            },
            RegisterStep::AwaitingHash => match event {
                RegisterEventView::Hashed(password_hash) => (
                    RegistrationView { user: self.user, step: RegisterStep::AwaitingInsert },
                    RegisterActionView::InsertUser { email: self.user.email, password_hash },
                ),
                RegisterEventView::HashFailed => self.reject(AuthError::PasswordHashError),
                _ => self.reject(AuthError::DatabaseError),
            },
            RegisterStep::AwaitingInsert => match event {
                RegisterEventView::Inserted => self.accept(),
                RegisterEventView::Duplicate => self.reject(AuthError::UserAlreadyExists),
                _ => self.reject(AuthError::DatabaseError),
            },
            RegisterStep::Registered => self.accept(),
            RegisterStep::Rejected(error) => self.reject(error),
        }
    }
}

impl Registration {
    /// Begins the registration of `user`.
    pub fn start(user: User) -> (begun: (Registration, RegisterAction))
        ensures
            (begun.0@, begun.1@) == RegistrationView::start(user@),
    {
        let email = String::from_str(user.email());
        (
            Registration { user, step: RegisterStep::AwaitingExists },
            RegisterAction::QueryExists { email },
        )
    }

    pub fn current_step(&self) -> (step: RegisterStep)
        ensures
            step == self@.step,
    {
        self.step
    }

    pub fn user(&self) -> (user: &User)
        ensures
            user@ == self@.user,
    {
        &self.user
    }

    fn reject(self, error: AuthError) -> (closed: (Registration, RegisterAction))
        ensures
            (closed.0@, closed.1@) == self@.reject(error),
    {
        (
            Registration { user: self.user, step: RegisterStep::Rejected(error) },
            RegisterAction::Finish { result: Err(error) },
        )
    }

    fn accept(self) -> (closed: (Registration, RegisterAction))
        ensures
            (closed.0@, closed.1@) == self@.accept(),
    {
        (
            Registration { user: self.user, step: RegisterStep::Registered },
            RegisterAction::Finish { result: Ok(RegisterResponse::registered()) },
        )
    }

    /// Takes what the driver reports and decides what happens next.
    pub fn step(self, event: RegisterEvent) -> (moved: (Registration, RegisterAction))
        ensures
            (moved.0@, moved.1@) == self@.next(event@),
    {
        match self.step {
            RegisterStep::AwaitingExists => match event {
                RegisterEvent::Exists(false) => {
                    let password = String::from_str(self.user.password());
                    (
                        Registration { user: self.user, step: RegisterStep::AwaitingHash },
                        RegisterAction::HashPassword { password },
                    )
                },
                RegisterEvent::Exists(true) => self.reject(AuthError::UserAlreadyExists),
                _ => self.reject(AuthError::DatabaseError),
            },
            RegisterStep::AwaitingHash => match event {
                RegisterEvent::Hashed(password_hash) => {
                    let email = String::from_str(self.user.email());
                    (
                        Registration { user: self.user, step: RegisterStep::AwaitingInsert },
                        RegisterAction::InsertUser { email, password_hash },
                    )
                },
                RegisterEvent::HashFailed => self.reject(AuthError::PasswordHashError),
                _ => self.reject(AuthError::DatabaseError),
            },
            RegisterStep::AwaitingInsert => match event {
                RegisterEvent::Inserted => self.accept(),
                RegisterEvent::Duplicate => self.reject(AuthError::UserAlreadyExists),
                _ => self.reject(AuthError::DatabaseError),
            },
            RegisterStep::Registered => self.accept(),
            RegisterStep::Rejected(error) => self.reject(error),
        }
    }
}

} // verus!
