use rust_auth::password::{hash, hash_with_salt, judge, verify_password, PasswordError};

#[test]
fn hashed_password_verifies() {
    let passwords: [&[u8]; 4] = [b"correct horse battery staple", b"", b"\x00\xff\x80 not text", &[7u8; 300]];
    for password in passwords {
        let stored = hash(password).unwrap();
        assert_eq!(verify_password(&stored, password), Ok(()));
    }
}

#[test]
fn another_password_does_not_verify() {
    let stored = hash(b"correct horse battery staple").unwrap();
    assert_eq!(verify_password(&stored, b"correct horse battery stapl"), Err(PasswordError::Mismatch));
    assert_eq!(verify_password(&stored, b""), Err(PasswordError::Mismatch));
    assert_eq!(verify_password(&stored, b"Correct horse battery staple"), Err(PasswordError::Mismatch));
}

#[test]
fn two_hashes_of_one_password_differ_and_both_verify() {
    let first = hash(b"hunter2").unwrap();
    let second = hash(b"hunter2").unwrap();
    assert_ne!(first, second);
    assert_eq!(verify_password(&first, b"hunter2"), Ok(()));
    assert_eq!(verify_password(&second, b"hunter2"), Ok(()));
}

#[test]
fn hash_is_a_self_describing_argon2id_string() {
    let stored = hash(b"hunter2").unwrap();
    assert!(stored.starts_with("$argon2id$v=19$m=19456,t=2,p=1$"));
    assert_eq!(stored.split('$').count(), 6);
}

#[test]
fn hash_with_salt_is_what_argon2_makes_of_password_and_salt() {
    let salt = [0x5au8; 16];
    let stored = hash_with_salt(b"hunter2", &salt).unwrap();
    let encoded = argon2::password_hash::SaltString::encode_b64(&salt).unwrap();
    let expected = argon2::PasswordHasher::hash_password(
        &argon2::Argon2::default(),
        b"hunter2",
        &encoded,
    )
    .unwrap()
    .to_string();
    assert_eq!(stored, expected);
    assert_eq!(hash_with_salt(b"hunter2", &salt).unwrap(), stored);
    assert_ne!(hash_with_salt(b"hunter2", &[0x5bu8; 16]).unwrap(), stored);
    assert_eq!(verify_password(&stored, b"hunter2"), Ok(()));
}

#[test]
fn hash_made_with_other_parameters_still_verifies() {
    // Argon2id with m=16, t=2, p=1, the password "password" and the salt "somesalt".
    let params = argon2::Params::new(16, 2, 1, None).unwrap();
    let hasher =
        argon2::Argon2::new(argon2::Algorithm::Argon2id, argon2::Version::V0x13, params);
    let salt = argon2::password_hash::SaltString::encode_b64(b"somesalt").unwrap();
    let stored =
        argon2::PasswordHasher::hash_password(&hasher, b"password", &salt).unwrap().to_string();
    assert!(stored.starts_with("$argon2id$v=19$m=16,t=2,p=1$"));
    assert_eq!(verify_password(&stored, b"password"), Ok(()));
    assert_eq!(verify_password(&stored, b"passwore"), Err(PasswordError::Mismatch));
}

#[test]
fn malformed_stored_hash_is_told_apart_from_a_mismatch() {
    assert_eq!(verify_password("", b"hunter2"), Err(PasswordError::MalformedStoredHash));
    assert_eq!(verify_password("hunter2", b"hunter2"), Err(PasswordError::MalformedStoredHash));
    assert_eq!(
        verify_password("$argon2id$v=19$m=19456,t=2,p=1$!!!$!!!", b"hunter2"),
        Err(PasswordError::MalformedStoredHash)
    );
    assert_eq!(
        verify_password("$nosuchalgorithm$v=19$m=19456,t=2,p=1$c29tZXNhbHQ$c29tZWhhc2hzb21laGFzaA", b"hunter2"),
        Err(PasswordError::MalformedStoredHash)
    );
}

#[test]
fn judge_names_the_three_outcomes() {
    assert_eq!(judge(Some(true)), Ok(()));
    assert_eq!(judge(Some(false)), Err(PasswordError::Mismatch));
    assert_eq!(judge(None), Err(PasswordError::MalformedStoredHash));
}
