use chat_auth::{
    hash_password, AuthError, DbAuth, HashParams, Login, LoginAction, LoginEvent, LoginStep,
    RegisterAction, RegisterEvent, RegisterStep, Registration, User, TOKEN_EXPIRY,
};

fn user(email: &str, password: &str) -> User {
    User::new(email.to_string(), password.to_string())
}

fn register_failure(action: &RegisterAction) -> Option<AuthError> {
    match action {
        RegisterAction::Finish { result: Err(error) } => Some(*error),
        _ => None,
    }
}

fn login_failure(action: &LoginAction) -> Option<AuthError> {
    match action {
        LoginAction::Finish { result: Err(error) } => Some(*error),
        _ => None,
    }
}

#[test]
fn registration_asks_for_existence_then_hash_then_insert() {
    let (flow, action) = Registration::start(user("a@x.com", "pw"));
    assert_eq!(flow.current_step(), RegisterStep::AwaitingExists);
    assert!(matches!(&action, RegisterAction::QueryExists { email } if email == "a@x.com"));

    let (flow, action) = flow.step(RegisterEvent::Exists(false));
    assert_eq!(flow.current_step(), RegisterStep::AwaitingHash);
    assert!(matches!(&action, RegisterAction::HashPassword { password } if password == "pw"));

    let (flow, action) = flow.step(RegisterEvent::Hashed("$hash".to_string()));
    assert_eq!(flow.current_step(), RegisterStep::AwaitingInsert);
    assert!(matches!(
        &action,
        RegisterAction::InsertUser { email, password_hash }
            if email == "a@x.com" && password_hash == "$hash"
    ));

    let (flow, action) = flow.step(RegisterEvent::Inserted);
    assert_eq!(flow.current_step(), RegisterStep::Registered);
    match action {
        RegisterAction::Finish { result: Ok(response) } => {
            assert_eq!(response.message(), "User registered successfully")
        }
        other => panic!("{other:?}"),
    }
    assert_eq!(flow.user().email(), "a@x.com");
}

#[test]
fn registration_of_a_taken_identity_stops_at_the_check() {
    let (flow, _) = Registration::start(user("a@x.com", "pw"));
    let (flow, action) = flow.step(RegisterEvent::Exists(true));
    assert_eq!(flow.current_step(), RegisterStep::Rejected(AuthError::UserAlreadyExists));
    assert_eq!(register_failure(&action), Some(AuthError::UserAlreadyExists));
}

#[test]
fn registration_that_loses_the_insert_is_told_that_the_user_exists() {
    let (flow, _) = Registration::start(user("a@x.com", "pw"));
    let (flow, _) = flow.step(RegisterEvent::Exists(false));
    let (flow, _) = flow.step(RegisterEvent::Hashed("$hash".to_string()));
    let (flow, action) = flow.step(RegisterEvent::Duplicate);
    assert_eq!(flow.current_step(), RegisterStep::Rejected(AuthError::UserAlreadyExists));
    assert_eq!(register_failure(&action), Some(AuthError::UserAlreadyExists));
}

#[test]
fn registration_reports_a_failed_hash() {
    let (flow, _) = Registration::start(user("a@x.com", "pw"));
    let (flow, _) = flow.step(RegisterEvent::Exists(false));
    let (flow, action) = flow.step(RegisterEvent::HashFailed);
    assert_eq!(flow.current_step(), RegisterStep::Rejected(AuthError::PasswordHashError));
    assert_eq!(register_failure(&action), Some(AuthError::PasswordHashError));
}

#[test]
fn registration_reports_a_failed_store_at_every_step() {
    let (flow, _) = Registration::start(user("a@x.com", "pw"));
    let (_, action) = flow.step(RegisterEvent::StoreFailed);
    assert_eq!(register_failure(&action), Some(AuthError::DatabaseError));

    let (flow, _) = Registration::start(user("a@x.com", "pw"));
    let (flow, _) = flow.step(RegisterEvent::Exists(false));
    let (_, action) = flow.step(RegisterEvent::StoreFailed);
    assert_eq!(register_failure(&action), Some(AuthError::DatabaseError));

    let (flow, _) = Registration::start(user("a@x.com", "pw"));
    let (flow, _) = flow.step(RegisterEvent::Exists(false));
    let (flow, _) = flow.step(RegisterEvent::Hashed("$hash".to_string()));
    let (_, action) = flow.step(RegisterEvent::StoreFailed);
    assert_eq!(register_failure(&action), Some(AuthError::DatabaseError));
}

#[test]
fn registration_treats_an_answer_out_of_turn_as_a_store_failure() {
    let (flow, _) = Registration::start(user("a@x.com", "pw"));
    let (_, action) = flow.step(RegisterEvent::Inserted);
    assert_eq!(register_failure(&action), Some(AuthError::DatabaseError));

    let (flow, _) = Registration::start(user("a@x.com", "pw"));
    let (flow, _) = flow.step(RegisterEvent::Exists(false));
    let (_, action) = flow.step(RegisterEvent::Exists(false));
    assert_eq!(register_failure(&action), Some(AuthError::DatabaseError));

    let (flow, _) = Registration::start(user("a@x.com", "pw"));
    let (flow, _) = flow.step(RegisterEvent::Exists(false));
    let (flow, _) = flow.step(RegisterEvent::Hashed("$hash".to_string()));
    let (_, action) = flow.step(RegisterEvent::Hashed("$other".to_string()));
    assert_eq!(register_failure(&action), Some(AuthError::DatabaseError));
}

#[test]
fn closed_registration_repeats_its_answer() {
    let (flow, _) = Registration::start(user("a@x.com", "pw"));
    let (flow, _) = flow.step(RegisterEvent::Exists(true));
    let (flow, action) = flow.step(RegisterEvent::Inserted);
    assert_eq!(flow.current_step(), RegisterStep::Rejected(AuthError::UserAlreadyExists));
    assert_eq!(register_failure(&action), Some(AuthError::UserAlreadyExists));

    let (flow, _) = Registration::start(user("a@x.com", "pw"));
    let (flow, _) = flow.step(RegisterEvent::Exists(false));
    let (flow, _) = flow.step(RegisterEvent::Hashed("$hash".to_string()));
    let (flow, _) = flow.step(RegisterEvent::Inserted);
    let (flow, action) = flow.step(RegisterEvent::StoreFailed);
    assert_eq!(flow.current_step(), RegisterStep::Registered);
    assert!(matches!(action, RegisterAction::Finish { result: Ok(_) }));
}

#[test]
fn login_asks_for_the_hash_then_for_the_verdict() {
    let (flow, action) = Login::start(user("a@x.com", "pw"));
    assert_eq!(flow.current_step(), LoginStep::AwaitingHash);
    assert!(matches!(&action, LoginAction::FetchHash { email } if email == "a@x.com"));

    let (flow, action) = flow.step(LoginEvent::Found("$hash".to_string()));
    assert_eq!(flow.current_step(), LoginStep::AwaitingVerdict);
    assert!(matches!(
        &action,
        LoginAction::VerifyPassword { password, password_hash }
            if password == "pw" && password_hash == "$hash"
    ));

    let (flow, action) = flow.step(LoginEvent::Checked(Ok(true)));
    assert_eq!(flow.current_step(), LoginStep::Authenticated);
    match action {
        LoginAction::Finish { result: Ok(claims) } => {
            assert_eq!(claims.sub(), "a@x.com");
            assert_eq!(claims.exp(), TOKEN_EXPIRY);
        }
        other => panic!("{other:?}"),
    }
    assert_eq!(flow.user().email(), "a@x.com");
}

#[test]
fn login_answers_unknown_user_and_wrong_password_alike() {
    let (flow, _) = Login::start(user("a@x.com", "pw"));
    let (flow, action) = flow.step(LoginEvent::NotFound);
    assert_eq!(flow.current_step(), LoginStep::Rejected(AuthError::WrongCredentials));
    assert_eq!(login_failure(&action), Some(AuthError::WrongCredentials));

    let (flow, _) = Login::start(user("a@x.com", "pw"));
    let (flow, _) = flow.step(LoginEvent::Found("$hash".to_string()));
    let (flow, action) = flow.step(LoginEvent::Checked(Ok(false)));
    assert_eq!(flow.current_step(), LoginStep::Rejected(AuthError::WrongCredentials));
    assert_eq!(login_failure(&action), Some(AuthError::WrongCredentials));
}

#[test]
fn login_passes_a_failed_check_on() {
    let (flow, _) = Login::start(user("a@x.com", "pw"));
    let (flow, _) = flow.step(LoginEvent::Found("garbage".to_string()));
    let (_, action) = flow.step(LoginEvent::Checked(Err(AuthError::PasswordHashError)));
    assert_eq!(login_failure(&action), Some(AuthError::PasswordHashError));
}

#[test]
fn login_reports_a_failed_store_and_answers_out_of_turn() {
    let (flow, _) = Login::start(user("a@x.com", "pw"));
    let (_, action) = flow.step(LoginEvent::StoreFailed);
    assert_eq!(login_failure(&action), Some(AuthError::DatabaseError));

    let (flow, _) = Login::start(user("a@x.com", "pw"));
    let (_, action) = flow.step(LoginEvent::Checked(Ok(true)));
    assert_eq!(login_failure(&action), Some(AuthError::DatabaseError));

    let (flow, _) = Login::start(user("a@x.com", "pw"));
    let (flow, _) = flow.step(LoginEvent::Found("$hash".to_string()));
    let (_, action) = flow.step(LoginEvent::NotFound);
    assert_eq!(login_failure(&action), Some(AuthError::DatabaseError));
}

#[test]
fn closed_login_repeats_its_outcome() {
    let (flow, _) = Login::start(user("a@x.com", "pw"));
    let (flow, _) = flow.step(LoginEvent::NotFound);
    let (flow, action) = flow.step(LoginEvent::Found("$hash".to_string()));
    assert_eq!(flow.current_step(), LoginStep::Rejected(AuthError::WrongCredentials));
    assert_eq!(login_failure(&action), Some(AuthError::WrongCredentials));
}

/// Carries out one pending action of a registration against the table.
fn advance(
    table: &mut DbAuth,
    flow: Registration,
    action: RegisterAction,
    now: u64,
) -> (Registration, RegisterAction) {
    let event = match action {
        RegisterAction::Finish { result } => return (flow, RegisterAction::Finish { result }),
        RegisterAction::QueryExists { email } => RegisterEvent::Exists(table.contains(&email)),
        RegisterAction::HashPassword { password } => {
            match hash_password(&password, &HashParams::fast()) {
                Ok(hash) => RegisterEvent::Hashed(hash),
                Err(_) => RegisterEvent::HashFailed,
            }
        }
        RegisterAction::InsertUser { email, password_hash } => {
            match table.insert(email, password_hash, now) {
                Ok(()) => RegisterEvent::Inserted,
                Err(_) => RegisterEvent::Duplicate,
            }
        }
    };
    flow.step(event)
}

#[test]
fn racing_registrations_of_one_identity_have_one_winner() {
    let callers: usize = 5;
    let mut table = DbAuth::new();
    let mut race: Vec<(Registration, RegisterAction)> = (0..callers)
        .map(|caller| Registration::start(user("a@x.com", &format!("pw{caller}"))))
        .collect();
    // Every caller is told that the identity is free, and every caller hashes,
    // before the first of them inserts.
    for _ in 0..3 {
        race = race
            .into_iter()
            .rev()
            .map(|(flow, action)| advance(&mut table, flow, action, 7))
            .collect();
    }
    let won = race.iter().filter(|(flow, _)| flow.current_step() == RegisterStep::Registered).count();
    let refused = race
        .iter()
        .filter(|(flow, _)| flow.current_step() == RegisterStep::Rejected(AuthError::UserAlreadyExists))
        .count();
    assert_eq!(won, 1);
    assert_eq!(refused, callers - 1);
    assert_eq!(table.len(), 1);
    assert!(table.contains("a@x.com"));
}

#[test]
fn racing_registrations_that_interleave_have_one_winner() {
    let mut table = DbAuth::new();
    let (first, first_action) = Registration::start(user("a@x.com", "one"));
    let (second, second_action) = Registration::start(user("a@x.com", "two"));
    let (third, third_action) = Registration::start(user("a@x.com", "three"));

    let (first, first_action) = advance(&mut table, first, first_action, 1);
    let (second, second_action) = advance(&mut table, second, second_action, 1);
    let (second, second_action) = advance(&mut table, second, second_action, 2);
    let (second, second_action) = advance(&mut table, second, second_action, 3);
    assert_eq!(second.current_step(), RegisterStep::Registered);
    assert!(matches!(second_action, RegisterAction::Finish { result: Ok(_) }));

    let (first, first_action) = advance(&mut table, first, first_action, 4);
    let (first, first_action) = advance(&mut table, first, first_action, 5);
    assert_eq!(first.current_step(), RegisterStep::Rejected(AuthError::UserAlreadyExists));
    assert_eq!(register_failure(&first_action), Some(AuthError::UserAlreadyExists));

    let (third, third_action) = advance(&mut table, third, third_action, 6);
    assert_eq!(third.current_step(), RegisterStep::Rejected(AuthError::UserAlreadyExists));
    assert_eq!(register_failure(&third_action), Some(AuthError::UserAlreadyExists));

    assert_eq!(table.len(), 1);
}
