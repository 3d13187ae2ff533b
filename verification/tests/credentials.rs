use todo_auth::credentials::Credential;
use todo_auth::credentials::CredentialError;
use todo_auth::credentials::verify_username;

#[test]
fn test_password_simple() {
    // First, try to make a valid Password credential
    let cred = match Credential::from_plain("john", "this_is_secret!") {
        Ok(cred) => cred,
        Err(err) => {
            panic!("new() should not have crashed, but it returned: {:?}", err);
        }
    };

    // Verify that it went well
    assert_eq!(cred.user(), String::from("john"));
    // Check if any hashing has occurred (due to salts we can't check which)
    assert_ne!(cred.pass(), String::from("this_is_a_secret!"));
}

#[test]
fn test_password_verify() {
    // Try to make a valid Password credential
    let cred = match Credential::from_plain("john", "this_is_secret!") {
        Ok(cred) => cred,
        Err(err) => {
            panic!("new() should not have crashed, but it returned: {:?}", err);
        }
    };

    // Now match it with a matching username/password
    match cred.verify("john", "this_is_secret!") {
        Ok(res) => {
            assert_eq!(res, true);
        }
        Err(err) => {
            panic!("verify_password() should not have crashed, but it returned: {:?}", err);
        }
    }
    // Now match it with a not-matching username
    match cred.verify("john2", "this_is_secret!") {
        Ok(res) => {
            assert_eq!(res, false);
        }
        Err(err) => {
            panic!("verify_password() should not have crashed, but it returned: {:?}", err);
        }
    }
    // Now match it with a not-matching password
    match cred.verify("john", "this_is_secret?") {
        Ok(res) => {
            assert_eq!(res, false);
        }
        Err(err) => {
            panic!("verify_password() should not have crashed, but it returned: {:?}", err);
        }
    }
}

#[test]
fn test_password_salt() {
    // Make two hashes of the same password
    let cred1 = match Credential::from_plain("john", "this_is_secret!") {
        Ok(cred) => cred,
        Err(err) => {
            panic!("new() should not have crashed, but it returned: {:?}", err);
        }
    };
    let cred2 = match Credential::from_plain("john", "this_is_secret!") {
        Ok(cred) => cred,
        Err(err) => {
            panic!("new() should not have crashed, but it returned: {:?}", err);
        }
    };

    // Make sure that the hashes are _not_ the same
    assert_ne!(cred1.pass(), cred2.pass());
}

#[test]
fn test_illegal_username() {
    // Make a hash with a username that is illegal
    let _ = match Credential::from_plain("john#$", "this_is_secret!") {
        Ok(_) => {
            panic!("new() should have crashed due to illegal username, but it didn't");
        }
        Err(err) => match err {
            CredentialError::InvalidUsername { username: _ } => {}
            err => {
                panic!("new() crashed, but not because of an illegal username: {:?}", err);
            }
        },
    };
}

#[test]
fn test_username_validation() {
    assert!(verify_username("john").is_ok());
    assert!(verify_username("J0hn_-").is_ok());
    assert!(verify_username("").is_err());
    assert!(verify_username("a+b").is_err());
    assert!(verify_username("with space").is_err());
    match verify_username("jo#hn") {
        Err(CredentialError::InvalidUsername { username }) => assert_eq!(username, "jo#hn"),
        other => panic!("expected an invalid-username error, got {:?}", other),
    }
}

#[test]
fn test_new_rejects_invalid_username() {
    assert!(Credential::new(String::from("john"), String::from("somehash")).is_ok());
    match Credential::new(String::from("jo hn"), String::from("somehash")) {
        Err(CredentialError::InvalidUsername { username }) => assert_eq!(username, "jo hn"),
        other => panic!("expected an invalid-username error, got {:?}", other),
    }
}

#[test]
fn test_serialize_exact() {
    let cred = Credential::new(String::from("john"), String::from("abc+def")).unwrap();
    assert_eq!(cred.serialize(), "john+abc+def");
}

#[test]
fn test_serialize_deserialize_roundtrip() {
    let cred = Credential::new(String::from("john"), String::from("ab+cd+ef")).unwrap();
    let back = Credential::deserialize(&cred.serialize()).unwrap();
    assert!(back == cred);
    assert_eq!(back.user(), "john");
    assert_eq!(back.pass(), "ab+cd+ef");
}

#[test]
fn test_deserialize_missing_separator() {
    match Credential::deserialize("no-plus-here") {
        Err(CredentialError::MissingSeparator) => {}
        other => panic!("expected a missing-separator error, got {:?}", other),
    }
}

#[test]
fn test_deserialize_splits_at_first_plus() {
    let cred = Credential::deserialize("john+ab+cd").unwrap();
    assert_eq!(cred.user(), "john");
    assert_eq!(cred.pass(), "ab+cd");
}

#[test]
fn test_deserialize_invalid_username() {
    match Credential::deserialize("jo#hn+xyz") {
        Err(CredentialError::InvalidUsername { username }) => assert_eq!(username, "jo#hn"),
        other => panic!("expected an invalid-username error, got {:?}", other),
    }
    match Credential::deserialize("+xyz") {
        Err(CredentialError::InvalidUsername { username }) => assert_eq!(username, ""),
        other => panic!("expected an invalid-username error, got {:?}", other),
    }
}

#[test]
fn test_from_plain_encodes_parameters() {
    // The stored hash is self-contained: algorithm parameters, salt and
    // digest are all embedded in the encoded string.
    let cred = Credential::from_plain("john", "this_is_secret!").unwrap();
    assert!(cred.pass().starts_with("$argon2"));
}

#[test]
fn test_verify_malformed_hash_is_error_not_false() {
    let cred = Credential::new(String::from("john"), String::from("not-an-encoded-hash")).unwrap();
    // A differing username short-circuits to Ok(false) without hashing.
    assert_eq!(cred.verify("jane", "whatever").unwrap(), false);
    // A matching username reaches the malformed stored hash: an error.
    match cred.verify("john", "whatever") {
        Err(CredentialError::PasswordHashError { .. }) => {}
        other => panic!("expected a hashing error, got {:?}", other),
    }
}
