use chat_auth::{hash_password, hash_with_salt, verify_password, AuthError, HashParams};

const SALT: &str = "c29tZXNhbHRzb21lc2FsdA";
const OTHER_SALT: &str = "b3RoZXJzYWx0b3RoZXJzYQ";

#[test]
fn hash_then_verify_accepts_the_secret() {
    let hash = hash_password("correct horse", &HashParams::fast()).unwrap();
    assert_eq!(verify_password("correct horse", &hash), Ok(true));
}

#[test]
fn verify_rejects_another_secret() {
    let hash = hash_password("correct horse", &HashParams::fast()).unwrap();
    assert_eq!(verify_password("correct horsf", &hash), Ok(false));
    assert_eq!(verify_password("", &hash), Ok(false));
    assert_eq!(verify_password("correct horse ", &hash), Ok(false));
}

#[test]
fn verify_fails_on_a_malformed_hash() {
    assert_eq!(verify_password("pw", "not-a-hash"), Err(AuthError::PasswordHashError));
    assert_eq!(verify_password("pw", ""), Err(AuthError::PasswordHashError));
    assert_eq!(verify_password("pw", "pw"), Err(AuthError::PasswordHashError));
}

#[test]
fn verify_rejects_a_well_formed_hash_of_another_algorithm() {
    let foreign = "$pbkdf2-sha256$i=1000$c29tZXNhbHRzb21lc2FsdA$MTIzNDU2Nzg5MDEyMzQ1Ng";
    assert_eq!(verify_password("pw", foreign), Ok(false));
}

#[test]
fn hash_is_a_phc_string_that_names_its_costs() {
    let hash = hash_password("pw", &HashParams::fast()).unwrap();
    assert!(hash.starts_with("$argon2id$v=19$m=256,t=2,p=1$"), "{hash}");
    assert_ne!(hash, "pw");
    assert!(!hash.contains("pw$"));
}

#[test]
fn every_hash_gets_a_fresh_salt() {
    let first = hash_password("pw", &HashParams::fast()).unwrap();
    let second = hash_password("pw", &HashParams::fast()).unwrap();
    assert_ne!(first, second);
    assert_eq!(verify_password("pw", &first), Ok(true));
    assert_eq!(verify_password("pw", &second), Ok(true));
}

#[test]
fn hash_with_salt_is_a_function_of_its_arguments() {
    let params = HashParams::fast();
    let first = hash_with_salt("pw", SALT, &params).unwrap();
    let second = hash_with_salt("pw", SALT, &params).unwrap();
    assert_eq!(first, second);
    assert!(first.starts_with("$argon2id$v=19$m=256,t=2,p=1$c29tZXNhbHRzb21lc2FsdA$"), "{first}");
    assert_ne!(first, hash_with_salt("pw", OTHER_SALT, &params).unwrap());
    assert_ne!(first, hash_with_salt("pW", SALT, &params).unwrap());
    let slower = HashParams::new(256, 3, 1, 16).unwrap();
    assert_ne!(first, hash_with_salt("pw", SALT, &slower).unwrap());
}

#[test]
fn hash_with_salt_is_what_argon2id_gives() {
    let costs = argon2::Params::new(256, 2, 1, Some(16)).unwrap();
    let hasher = argon2::Argon2::new(argon2::Algorithm::Argon2id, argon2::Version::V0x13, costs);
    let salt = argon2::password_hash::SaltString::from_b64(SALT).unwrap();
    let expected = argon2::PasswordHasher::hash_password(&hasher, b"pw", &salt).unwrap().to_string();
    assert_eq!(hash_with_salt("pw", SALT, &HashParams::fast()).unwrap(), expected);
    assert_eq!(verify_password("pw", &expected), Ok(true));
}

#[test]
fn hash_with_salt_accepts_its_own_secret() {
    let hash = hash_with_salt("s3cret", SALT, &HashParams::fast()).unwrap();
    assert_eq!(verify_password("s3cret", &hash), Ok(true));
    assert_eq!(verify_password("s3cre", &hash), Ok(false));
}

#[test]
fn hash_with_salt_refuses_a_salt_that_is_not_base64() {
    let params = HashParams::fast();
    assert_eq!(hash_with_salt("pw", "not base64!", &params), Err(AuthError::PasswordHashError));
    assert_eq!(hash_with_salt("pw", "", &params), Err(AuthError::PasswordHashError));
    assert_eq!(hash_with_salt("pw", "abc", &params), Err(AuthError::PasswordHashError));
}

#[test]
fn verify_uses_the_costs_the_hash_names() {
    let params = HashParams::new(512, 3, 2, 32).unwrap();
    let hash = hash_password("pw", &params).unwrap();
    assert!(hash.starts_with("$argon2id$v=19$m=512,t=3,p=2$"), "{hash}");
    assert_eq!(verify_password("pw", &hash), Ok(true));
    assert_eq!(verify_password("wp", &hash), Ok(false));
}

#[test]
fn non_ascii_secrets_are_hashed_as_utf8() {
    let hash = hash_password("pässwörd", &HashParams::fast()).unwrap();
    assert_eq!(verify_password("pässwörd", &hash), Ok(true));
    assert_eq!(verify_password("password", &hash), Ok(false));
}

#[test]
fn fast_params_are_the_cheap_ones() {
    let params = HashParams::fast();
    assert_eq!(params.memory_cost(), 256);
    assert_eq!(params.iterations(), 2);
    assert_eq!(params.parallelism(), 1);
    assert_eq!(params.output_len(), 16);
    assert_eq!(HashParams::new(256, 2, 1, 16), Ok(params));
}

#[test]
fn params_at_the_lower_bounds_are_accepted() {
    let least = HashParams::new(8, 1, 1, 4).unwrap();
    assert_eq!(least.memory_cost(), 8);
    assert_eq!(least.iterations(), 1);
    assert_eq!(least.parallelism(), 1);
    assert_eq!(least.output_len(), 4);
    assert!(HashParams::new(16, 1, 2, 4).is_ok());
    assert!(HashParams::new(u32::MAX, u32::MAX, 0xFF_FFFF, u32::MAX).is_ok());
}

#[test]
fn params_outside_the_ranges_are_refused() {
    assert_eq!(HashParams::new(7, 1, 1, 4), Err(AuthError::PasswordHashError));
    assert_eq!(HashParams::new(15, 1, 2, 4), Err(AuthError::PasswordHashError));
    assert_eq!(HashParams::new(8, 0, 1, 4), Err(AuthError::PasswordHashError));
    assert_eq!(HashParams::new(8, 1, 0, 4), Err(AuthError::PasswordHashError));
    assert_eq!(HashParams::new(u32::MAX, 1, 0x100_0000, 4), Err(AuthError::PasswordHashError));
    assert_eq!(HashParams::new(u32::MAX, 1, u32::MAX, 4), Err(AuthError::PasswordHashError));
    assert_eq!(HashParams::new(8, 1, 1, 3), Err(AuthError::PasswordHashError));
}

#[test]
fn params_are_refused_exactly_where_argon2_refuses_them() {
    let cases: [(u32, u32, u32, u32); 10] = [
        (256, 2, 1, 16),
        (8, 1, 1, 4),
        (7, 1, 1, 4),
        (15, 1, 2, 4),
        (16, 1, 2, 4),
        (8, 0, 1, 4),
        (8, 1, 0, 4),
        (8, 1, 1, 3),
        (u32::MAX, 1, 0xFF_FFFF, 4),
        (u32::MAX, 1, 0x100_0000, 4),
    ];
    for (memory, passes, lanes, output) in cases {
        let theirs = argon2::Params::new(memory, passes, lanes, Some(output as usize)).is_ok();
        let ours = HashParams::new(memory, passes, lanes, output).is_ok();
        assert_eq!(ours, theirs, "{memory} {passes} {lanes} {output}");
    }
}

#[test]
fn an_output_too_short_for_a_phc_string_fails_at_hashing() {
    let params = HashParams::new(256, 2, 1, 4).unwrap();
    assert_eq!(hash_password("pw", &params), Err(AuthError::PasswordHashError));
    assert_eq!(hash_with_salt("pw", SALT, &params), Err(AuthError::PasswordHashError));
}

#[test]
fn a_hash_that_asks_for_too_many_lanes_accepts_nothing() {
    let overflowing = [
        "$argon2id$v=19$m=4294967295,t=1,p=600000000$c29tZXNhbHRzb21lc2FsdA$MTIzNDU2Nzg5MDEyMzQ1Ng",
        "$argon2id$v=19$m=4294967295,t=1,p=4294967295$c29tZXNhbHRzb21lc2FsdA$MTIzNDU2Nzg5MDEyMzQ1Ng",
        "$argon2id$v=19$m=256,t=2,p=536870912$c29tZXNhbHRzb21lc2FsdA$MTIzNDU2Nzg5MDEyMzQ1Ng",
        "$argon2id$v=19$m=256,t=2,p=16777216$c29tZXNhbHRzb21lc2FsdA$MTIzNDU2Nzg5MDEyMzQ1Ng",
        "$argon2id$v=19$m=256,t=2,p=99999999999999999999$c29tZXNhbHRzb21lc2FsdA$MTIzNDU2Nzg5MDEyMzQ1Ng",
        "$argon2id$v=19$m=256,t=2,p=0600000000$c29tZXNhbHRzb21lc2FsdA$MTIzNDU2Nzg5MDEyMzQ1Ng",
    ];
    for hash in overflowing {
        assert_eq!(verify_password("pw", hash), Ok(false), "{hash}");
    }
}

#[test]
fn the_last_lane_count_of_a_hash_is_the_one_that_counts() {
    let hash = hash_with_salt("pw", SALT, &HashParams::fast()).unwrap();
    let shadowed = hash.replace("p=1$", "p=600000000,p=1$");
    assert_ne!(shadowed, hash);
    assert_eq!(verify_password("pw", &shadowed), Ok(true));
    assert_eq!(verify_password("wp", &shadowed), Ok(false));
    let overflowing = hash.replace("p=1$", "p=1,p=600000000$");
    assert_ne!(overflowing, hash);
    assert_eq!(verify_password("pw", &overflowing), Ok(false));
}

#[test]
fn a_hash_with_costs_that_argon2_refuses_accepts_nothing() {
    let refused = [
        "$argon2id$v=19$m=7,t=2,p=1$c29tZXNhbHRzb21lc2FsdA$MTIzNDU2Nzg5MDEyMzQ1Ng",
        "$argon2id$v=19$m=256,t=0,p=1$c29tZXNhbHRzb21lc2FsdA$MTIzNDU2Nzg5MDEyMzQ1Ng",
        "$argon2id$v=19$m=256,t=2,p=0$c29tZXNhbHRzb21lc2FsdA$MTIzNDU2Nzg5MDEyMzQ1Ng",
        "$argon2id$v=19$m=256,t=2,p=x$c29tZXNhbHRzb21lc2FsdA$MTIzNDU2Nzg5MDEyMzQ1Ng",
        "$argon2id$v=19$m=256,t=2,p=1,q=1$c29tZXNhbHRzb21lc2FsdA$MTIzNDU2Nzg5MDEyMzQ1Ng",
        "$argon2id$v=19$m=256,t=2,p=1$c29tZXNhbHRzb21lc2FsdA",
        "$argon2id$v=19$m=256,t=2,p=1",
        "$argon2id",
    ];
    for hash in refused {
        assert_eq!(verify_password("pw", hash), Ok(false), "{hash}");
    }
}
