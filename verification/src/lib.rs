//! Credential and session layer of a chat service.
//!
//! The crate registers users, checks passwords, issues and checks bearer
//! tokens, and maps every failure to the status a client gets to see. All of
//! it is computation on plain values. Talking to a durable credential store
//! and to the network is left to the caller, who drives the state machines in
//! [`registration`] and [`login`] and feeds them what the store answered.
//!
//! - [`error`]: the closed set of failures and how each is shown to a client.
//! - [`messages`]: what a client sends and what it is answered.
//! - [`password`]: salted, memory-hard hashing and its verification.
//! - [`token`]: signing keys, claims, issuing and verifying tokens.
//! - [`bearer`]: the guard that turns an `Authorization` header into claims.
//! - [`cookie`]: the cookie a session token travels in.
//! - [`decimal`]: numbers written in decimal.
//! - [`registration`], [`login`]: the two flows as state machines.
//! - [`store`]: the credential table in memory, and both flows run on it.
//! - [`handlers`]: the three operations of the service.
//! - [`concurrency`]: registrations that race for one identity.

pub mod bearer;
pub mod concurrency;
pub mod cookie;
pub mod decimal;
pub mod error;
pub mod handlers;
pub mod login;
pub mod messages;
pub mod password;
pub mod registration;
pub mod store;
pub mod token;

pub use error::{AuthError, ErrorResponse};
pub use handlers::{authorize, check, login_response, register};
pub use login::{Login, LoginAction, LoginEvent, LoginStep};
pub use messages::{AuthBody, AuthResponse, RegisterResponse, User};
pub use password::{hash_password, hash_with_salt, verify_password, HashParams};
pub use registration::{RegisterAction, RegisterEvent, RegisterStep, Registration};
pub use store::DbAuth;
pub use token::{accept_claims, Claims, Keys, TOKEN_EXPIRY};
