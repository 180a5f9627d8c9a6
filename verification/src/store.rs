//! The table of credentials, held in memory.
//!
//! [`DbAuth`] is the credential store as the rest of the crate reasons about
//! it: a map from identity to hash and time of creation in which no identity
//! occurs twice, records are only ever added, and an insert of a taken
//! identity is refused by the table itself. A durable store has to behave the
//! same way; its driver runs the same [`Registration`] and [`Login`] machines
//! that the methods here run.

use vstd::prelude::*;
use vstd::string::*;

use crate::error::AuthError;
use crate::login::{Login, LoginAction, LoginActionView, LoginEvent, LoginStep, LoginView};
use crate::messages::{RegisterResponse, User, UserView};
use crate::password::{
    hash_outcome,
    hash_password,
    hashed_view,
    verify_outcome,
    verify_password,
    HashParams,
};
use crate::registration::{
    RegisterAction,
    RegisterActionView,
    RegisterEvent,
    RegisterStep,
    Registration,
    RegistrationView,
};
use crate::token::{claims_view, Claims, ClaimsView, TOKEN_EXPIRY};

verus! {

/// One row of the table.
#[derive(Debug)]
struct UserRecord {
    email: String,
    password_hash: String,
    created_at: u64,
}

/// What the table holds for an identity.
pub struct StoredCredential {
    pub password_hash: Seq<char>,
    pub created_at: u64,
}

/// The table seen as a map from identity to what is stored with it.
pub type Credentials = Map<Seq<char>, StoredCredential>;

/// The credential store.
#[derive(Debug)]
pub struct DbAuth {
    users: Vec<UserRecord>,
}

impl View for DbAuth {
    type V = Credentials;

    closed spec fn view(&self) -> Credentials {
        Map::new(
            |email: Seq<char>| self.row_of(email) is Some,
            |email: Seq<char>|
                StoredCredential {
                    password_hash: self.users[self.row_of(email)->0].password_hash@,
                    created_at: self.users[self.row_of(email)->0].created_at,
                },
        )
    }
}

/// What inserting a record does to the table: nothing, if the identity is
/// taken; otherwise the table gains the record.
pub open spec fn insert_outcome(
    before: Credentials,
    email: Seq<char>,
    credential: StoredCredential,
) -> (Credentials, Result<(), AuthError>) {
    if before.dom().contains(email) {
        (before, Err(AuthError::UserAlreadyExists))
    } else {
        (before.insert(email, credential), Ok(()))
    }
}

/// What a registration does to the table and what it is answered with,
/// given what hashing the password comes to.
///
/// Where the identity is taken, nothing is hashed, the registration fails and
/// the table stays as it is. Where it is free, the table gains the record with
/// the hash, or hashing failed and the table stays as it is.
pub open spec fn register_outcome(
    before: Credentials,
    user: UserView,
    now: u64,
    hashed: Result<Seq<char>, AuthError>,
) -> (Credentials, Result<Seq<char>, AuthError>) {
    if before.dom().contains(user.email) {
        (before, Err(AuthError::UserAlreadyExists))
    } else {
        match hashed {
            Ok(password_hash) => (
                before.insert(user.email, StoredCredential { password_hash, created_at: now }),
                Ok(RegisterResponse::registered_message()),
            ),
            Err(_) => (before, Err(AuthError::PasswordHashError)),
        }
    }
}

/// How a registration relates the table before it to the table after it and
/// to its answer, whatever salt was drawn.
///
/// Where the identity is taken, the registration fails and the table stays as
/// it is. Where it is free, either the table gains a record whose hash
/// accepts the user's password, or hashing failed and the table stays as it
/// is.
pub open spec fn registered(
    before: Credentials,
    user: UserView,
    now: u64,
    after: Credentials,
    answer: Result<Seq<char>, AuthError>,
) -> bool {
    if before.dom().contains(user.email) {
        after == before && answer == Err::<Seq<char>, AuthError>(AuthError::UserAlreadyExists)
    } else {
        match answer {
            Ok(message) => {
                &&& message == RegisterResponse::registered_message()
                &&& after.dom().contains(user.email)
                &&& after == before.insert(user.email, after[user.email])
                &&& after[user.email].created_at == now
                &&& verify_outcome(user.password, after[user.email].password_hash) == Ok::<
                    bool,
                    AuthError,
                >(true)
            },
            Err(error) => after == before && error == AuthError::PasswordHashError,
        }
    }
}

/// What signing in against a table comes to.
///
/// An identity that is not in the table and a password that the stored hash
/// does not accept are answered alike; a stored hash that is malformed is an
/// error of its own; otherwise the claims name the identity.
pub open spec fn authenticated(table: Credentials, user: UserView) -> Result<ClaimsView, AuthError> {
    if !table.dom().contains(user.email) {
        Err(AuthError::WrongCredentials)
    } else {
        match verify_outcome(user.password, table[user.email].password_hash) {
            Ok(true) => Ok((LoginView { user, step: LoginStep::Authenticated }).claims()),
            Ok(false) => Err(AuthError::WrongCredentials),
            Err(error) => Err(error),
        }
    }
}

/// The view of the answer to a registration.
pub open spec fn answer_view(answer: Result<RegisterResponse, AuthError>) -> Result<
    Seq<char>,
    AuthError,
> {
    match answer {
        Ok(response) => Ok(response@),
        Err(error) => Err(error),
    }
}

/// How many steps a registration has left at most.
spec fn register_rank(step: RegisterStep) -> nat {
    match step {
        RegisterStep::AwaitingExists => 3,
        RegisterStep::AwaitingHash => 2,
        RegisterStep::AwaitingInsert => 1,
        _ => 0,
    }
}

/// How many steps a sign-in has left at most.
spec fn login_rank(step: LoginStep) -> nat {
    match step {
        LoginStep::AwaitingHash => 2,
        LoginStep::AwaitingVerdict => 1,
        _ => 0,
    }
}

/// What holds of a registration against the table while it is under way.
spec fn register_progress(
    before: Credentials,
    user: UserView,
    now: u64,
    hashed: Result<Seq<char>, AuthError>,
    table: Credentials,
    flow: RegistrationView,
    action: RegisterActionView,
) -> bool {
    &&& flow.user == user
    &&& match flow.step {
        RegisterStep::AwaitingExists => {
            &&& action == RegisterActionView::QueryExists { email: user.email }
            &&& table == before
        },
        RegisterStep::AwaitingHash => {
            &&& action == RegisterActionView::HashPassword { password: user.password }
            &&& table == before
            &&& !before.dom().contains(user.email)
        },
        RegisterStep::AwaitingInsert => {
            &&& action matches RegisterActionView::InsertUser { email, password_hash }
            &&& email == user.email
            &&& hashed == Ok::<Seq<char>, AuthError>(password_hash)
            &&& verify_outcome(user.password, password_hash) == Ok::<bool, AuthError>(true)
            &&& table == before
            &&& !before.dom().contains(user.email)
        },
        RegisterStep::Registered => {
            &&& action matches RegisterActionView::Finish { result }
            &&& result is Ok
            &&& registered(before, user, now, table, result)
            &&& (table, result) == register_outcome(before, user, now, hashed)
        },
        RegisterStep::Rejected(error) => {
            &&& action == RegisterActionView::Finish { result: Err(error) }
            &&& registered(before, user, now, table, Err(error))
            &&& (table, Err::<Seq<char>, AuthError>(error)) == register_outcome(
                before,
                user,
                now,
                hashed,
            )
        },
    }
}

/// What holds of a sign-in against the table while it is under way.
spec fn login_progress(
    table: Credentials,
    user: UserView,
    flow: LoginView,
    action: LoginActionView,
) -> bool {
    &&& flow.user == user
    &&& match flow.step {
        LoginStep::AwaitingHash => action == LoginActionView::FetchHash { email: user.email },
        LoginStep::AwaitingVerdict => {
            &&& action matches LoginActionView::VerifyPassword { password, password_hash }
            &&& password == user.password
            &&& table.dom().contains(user.email)
            &&& password_hash == table[user.email].password_hash
        },
        LoginStep::Authenticated => {
            &&& action matches LoginActionView::Finish { result }
            &&& result is Ok
            &&& authenticated(table, user) == result
        },
        LoginStep::Rejected(error) => {
            &&& action == LoginActionView::Finish { result: Err(error) }
            &&& authenticated(table, user) == Err::<ClaimsView, AuthError>(error)
        },
    }
}

impl DbAuth {
    /// The row that holds `email`, if there is one.
    closed spec fn row_of(&self, email: Seq<char>) -> Option<int> {
        if exists|i: int| 0 <= i < self.users.len() && (#[trigger] self.users[i]).email@ == email {
            Some(
                choose|i: int| 0 <= i < self.users.len() && (#[trigger] self.users[i]).email@ == email,
            )
        } else {
            None
        }
    }

    /// No identity occurs twice.
    #[verifier::type_invariant]
    closed spec fn unique(&self) -> bool {
        forall|i: int, j: int|
            0 <= i < j < self.users.len() ==> (#[trigger] self.users[i]).email@ != (
            #[trigger] self.users[j]).email@
    }

    /// A row with this identity is the row of this identity.
    proof fn lemma_row(&self, i: int)
        requires
            self.unique(),
            0 <= i < self.users.len(),
        ensures
            self.row_of(self.users[i].email@) == Some(i),
            self@.dom().contains(self.users[i].email@),
            self@[self.users[i].email@].password_hash == self.users[i].password_hash@,
            self@[self.users[i].email@].created_at == self.users[i].created_at,
    {
        let email = self.users[i].email@;
        let j = choose|j: int| 0 <= j < self.users.len() && (#[trigger] self.users[j]).email@ == email;
        assert(j == i);
    }

    /// An empty table.
    pub fn new() -> (table: DbAuth)
        ensures
            table@ == Map::<Seq<char>, StoredCredential>::empty(),
    {
        DbAuth { users: Vec::new() }
    }

    /// The number of records.
    pub fn len(&self) -> (count: usize)
        ensures
            count == self@.dom().len(),
            self@.dom().finite(),
    {
        proof {
            use_type_invariant(self);
            self.lemma_rows_counted(self.users.len() as int);
            assert(self.emails_before(self.users.len() as int) =~= self@.dom()) by {
                assert forall|email: Seq<char>| self@.dom().contains(email) implies self.emails_before(
                    self.users.len() as int,
                ).contains(email) by {}
                assert forall|email: Seq<char>|
                    self.emails_before(self.users.len() as int).contains(
                        email,
                    ) implies self@.dom().contains(email) by {
                    let i = choose|i: int|
                        0 <= i < self.users.len() && (#[trigger] self.users[i]).email@ == email;
                    self.lemma_row(i);
                }
            }
        }
        self.users.len()
    }

    /// The identities in the first `n` rows.
    closed spec fn emails_before(&self, n: int) -> Set<Seq<char>> {
        Set::new(|email: Seq<char>| exists|i: int| 0 <= i < n && (#[trigger] self.users[i]).email@ == email)
    }

    /// The first `n` rows hold `n` identities.
    proof fn lemma_rows_counted(&self, n: int)
        requires
            self.unique(),
            0 <= n <= self.users.len(),
        ensures
            self.emails_before(n).finite(),
            self.emails_before(n).len() == n,
        decreases n,
    {
        if n == 0 {
            assert(self.emails_before(0) =~= Set::<Seq<char>>::empty());
        } else {
            self.lemma_rows_counted(n - 1);
            let last = self.users[n - 1].email@;
            assert(!self.emails_before(n - 1).contains(last));
            assert(self.emails_before(n) =~= self.emails_before(n - 1).insert(last));
        }
    }

    /// Finds the row that holds `email`.
    fn find(&self, email: &String) -> (row: Option<usize>)
        ensures
            row matches Some(i) ==> i < self.users.len() && self.users[i as int].email@ == email@,
            row is None ==> forall|i: int|
                0 <= i < self.users.len() ==> (#[trigger] self.users[i]).email@ != email@,
    {
        let mut i: usize = 0;
        while i < self.users.len()
            invariant
                i <= self.users.len(),
                forall|k: int| 0 <= k < i ==> (#[trigger] self.users[k]).email@ != email@,
            decreases self.users.len() - i,
        {
            if self.users[i].email == *email {
                return Some(i);
            }
            i += 1;
        }
        None
    }

    /// Whether a record with this identity exists.
    pub fn contains(&self, email: &str) -> (taken: bool)
        ensures
            taken == self@.dom().contains(email@),
    {
        let wanted = String::from_str(email);
        match self.find(&wanted) {
            Some(i) => {
                proof {
                    use_type_invariant(self);
                    self.lemma_row(i as int);
                }
                true
            },
            None => false,
        }
    }

    /// The hash stored with this identity, if the identity is registered.
    pub fn lookup(&self, email: &str) -> (found: Option<String>)
        ensures
            found matches Some(password_hash) ==> self@.dom().contains(email@)
                && self@[email@].password_hash == password_hash@,
            found is None ==> !self@.dom().contains(email@),
    {
        let wanted = String::from_str(email);
        match self.find(&wanted) {
            Some(i) => {
                proof {
                    use_type_invariant(self);
                    self.lemma_row(i as int);
                }
                Some(self.users[i].password_hash.clone())
            },
            None => None,
        }
    }

    /// When the record of this identity was made, if the identity is
    /// registered.
    pub fn created_at(&self, email: &str) -> (found: Option<u64>)
        ensures
            found matches Some(created_at) ==> self@.dom().contains(email@) && self@[email@].created_at
                == created_at,
            found is None ==> !self@.dom().contains(email@),
    {
        let wanted = String::from_str(email);
        match self.find(&wanted) {
            Some(i) => {
                proof {
                    use_type_invariant(self);
                    self.lemma_row(i as int);
                }
                Some(self.users[i].created_at)
            },
            None => None,
        }
    }

    /// Adds a record, unless the identity is taken. The table itself refuses
    /// a second record for an identity, whatever its caller checked before.
    pub fn insert(&mut self, email: String, password_hash: String, created_at: u64) -> (done: Result<
        (),
        AuthError,
    >)
        ensures
            (final(self)@, done) == insert_outcome(
                old(self)@,
                email@,
                StoredCredential { password_hash: password_hash@, created_at },
            ),
    {
        proof {
            use_type_invariant(&*self);
        }
        match self.find(&email) {
            Some(i) => {
                proof {
                    self.lemma_row(i as int);
                }
                Err(AuthError::UserAlreadyExists)
            },
            None => {
                let ghost before = *self;
                let ghost credential = StoredCredential { password_hash: password_hash@, created_at };
                let ghost key = email@;
                let mut users: Vec<UserRecord> = Vec::new();
                core::mem::swap(&mut self.users, &mut users);
                users.push(UserRecord { email, password_hash, created_at });
                assert(forall|i: int, j: int|
                    0 <= i < j < users.len() ==> (#[trigger] users[i]).email@ != (#[trigger] users[j]).email@);
                core::mem::swap(&mut self.users, &mut users);
                proof {
                    let n = before.users.len() as int;
                    assert(forall|i: int| 0 <= i < n ==> self.users[i] == before.users[i]);
                    self.lemma_row(n);
                    assert(!before@.dom().contains(key));
                    assert forall|other: Seq<char>| other != key implies (self@.dom().contains(other)
                        <==> before@.dom().contains(other)) && (before@.dom().contains(other)
                        ==> self@[other] == before@[other]) by {
                        if before@.dom().contains(other) {
                            let i = before.row_of(other)->0;
                            self.lemma_row(i);
                            before.lemma_row(i);
                        }
                        if self@.dom().contains(other) {
                            let i = self.row_of(other)->0;
                            before.lemma_row(i);
                            self.lemma_row(i);
                        }
                    }
                }
                Ok(())
            },
        }
    }

    /// Registers `user`, stamping the record with the time `now`.
    ///
    /// This runs a [`Registration`] against the table: the identity is looked
    /// for, the password hashed with a fresh salt, the record inserted.
    pub fn register_user(&mut self, user: User, params: &HashParams, now: u64) -> (answer: Result<
        RegisterResponse,
        AuthError,
    >)
        ensures
            exists|salt: Seq<char>|
                (final(self)@, answer_view(answer)) == register_outcome(
                    old(self)@,
                    user@,
                    now,
                    #[trigger] hash_outcome(user@.password, salt, *params),
                ),
            registered(old(self)@, user@, now, final(self)@, answer_view(answer)),
    {
        let ghost before = self@;
        let ghost who = user@;
        let ghost mut salt = Seq::<char>::empty();
        let begun = Registration::start(user);
        let mut flow = begun.0;
        let mut action = begun.1;
        loop
            invariant
                before == old(self)@,
                who == user@,
                register_progress(
                    before,
                    who,
                    now,
                    hash_outcome(who.password, salt, *params),
                    self@,
                    flow@,
                    action@,
                ),
            decreases register_rank(flow@.step),
        {
            let event = match action {
                RegisterAction::Finish { result } => {
                    return result;
                },
                RegisterAction::QueryExists { email } => RegisterEvent::Exists(
                    self.contains(email.as_str()),
                ),
                RegisterAction::HashPassword { password } => {
                    let hashed = hash_password(password.as_str(), params);
                    proof {
                        salt = choose|salt: Seq<char>|
                            hashed_view(hashed) == #[trigger] hash_outcome(who.password, salt, *params);
                    }
                    match hashed {
                        Ok(password_hash) => RegisterEvent::Hashed(password_hash),
                        Err(_) => RegisterEvent::HashFailed,
                    }
                },
                RegisterAction::InsertUser { email, password_hash } => match self.insert(
                    email,
                    password_hash,
                    now,
                ) {
                    Ok(()) => RegisterEvent::Inserted,
                    Err(_) => RegisterEvent::Duplicate,
                },
            };
            let moved = flow.step(event);
            flow = moved.0;
            action = moved.1;
        }
    }

    /// Checks the credentials of `user` against the table and, if they
    /// match, makes the claims for the session.
    ///
    /// This runs a [`Login`] against the table: the stored hash is fetched and
    /// the password checked against it.
    pub fn authenticate_user(&self, user: User) -> (claims: Result<Claims, AuthError>)
        ensures
            claims_view(claims) == authenticated(self@, user@),
    {
        let ghost who = user@;
        let begun = Login::start(user);
        let mut flow = begun.0;
        let mut action = begun.1;
        loop
            invariant
                who == user@,
                login_progress(self@, who, flow@, action@),
            decreases login_rank(flow@.step),
        {
            let event = match action {
                LoginAction::Finish { result } => {
                    return result;
                },
                LoginAction::FetchHash { email } => match self.lookup(email.as_str()) {
                    Some(password_hash) => LoginEvent::Found(password_hash),
                    None => LoginEvent::NotFound,
                },
                LoginAction::VerifyPassword { password, password_hash } => LoginEvent::Checked(
                    verify_password(password.as_str(), password_hash.as_str()),
                ),
            };
            let moved = flow.step(event);
            flow = moved.0;
            action = moved.1;
        }
    }
}

/// Registering an identity a second time fails with
/// [`AuthError::UserAlreadyExists`] and leaves the table as the first
/// registration left it: the stored hash is still the first one, and it still
/// accepts the first password.
pub proof fn lemma_second_registration_refused(
    table: Credentials,
    first: UserView,
    first_time: u64,
    between: Credentials,
    first_answer: Result<Seq<char>, AuthError>,
    second: UserView,
    second_time: u64,
    after: Credentials,
    second_answer: Result<Seq<char>, AuthError>,
)
    requires
        registered(table, first, first_time, between, first_answer),
        first_answer is Ok,
        second.email == first.email,
        registered(between, second, second_time, after, second_answer),
    ensures
        second_answer == Err::<Seq<char>, AuthError>(AuthError::UserAlreadyExists),
        after == between,
        after.dom().contains(first.email),
        after[first.email].created_at == first_time,
        verify_outcome(first.password, after[first.email].password_hash) == Ok::<bool, AuthError>(
            true,
        ),
{
}

/// A registration adds at most the record of its own identity: whatever was
/// stored before is still stored afterwards, unchanged, and no other identity
/// appears.
pub proof fn lemma_records_are_kept(
    before: Credentials,
    user: UserView,
    now: u64,
    after: Credentials,
    answer: Result<Seq<char>, AuthError>,
    email: Seq<char>,
)
    requires
        registered(before, user, now, after, answer),
    ensures
        before.dom().contains(email) ==> after.dom().contains(email) && after[email] == before[email],
        after.dom().contains(email) && email != user.email ==> before.dom().contains(email),
{
}

/// A user who has registered can sign in with the same credentials, and the
/// claims name that user.
pub proof fn lemma_registered_user_authenticates(
    before: Credentials,
    user: UserView,
    now: u64,
    after: Credentials,
    answer: Result<Seq<char>, AuthError>,
)
    requires
        registered(before, user, now, after, answer),
        answer is Ok,
    ensures
        authenticated(after, user) == Ok::<ClaimsView, AuthError>(
            ClaimsView { sub: user.email, exp: TOKEN_EXPIRY },
        ),
{
}

/// Claims are only ever made for an identity that the table holds at that
/// moment, and they name that identity.
pub proof fn lemma_claims_name_a_registered_identity(table: Credentials, user: UserView)
    ensures
        authenticated(table, user) matches Ok(claims) ==> {
            &&& table.dom().contains(claims.sub)
            &&& claims.sub == user.email
            &&& claims.exp == TOKEN_EXPIRY
        },
{
}

} // verus!
