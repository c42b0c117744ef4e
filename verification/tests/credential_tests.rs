use croissant_core::credential::{decide_login, hash_secret, verify_secret};
use croissant_core::errors::OpError;

#[test]
fn hash_then_verify_round_trip() {
    let h = hash_secret("pw1").unwrap();
    // The hash is a one-way token of fixed form, never the plaintext.
    assert_ne!(h, "pw1");
    assert_eq!(h.chars().count(), 60);
    assert_eq!(verify_secret("pw1", &h), Ok(true));
    assert_eq!(verify_secret("wrong", &h), Ok(false));
}

#[test]
fn decide_login_covers_all_three_outcomes() {
    assert_eq!(decide_login(None, "pw1"), Ok(false));
    let h = hash_secret("pw1").unwrap();
    assert_eq!(decide_login(Some(h.clone()), "pw1"), Ok(true));
    assert_eq!(decide_login(Some(h), "wrong"), Ok(false));
    assert_eq!(
        decide_login(Some("$2b$12$tooshort".to_string()), "pw1"),
        Err(OpError::InvalidStoredHash)
    );
}

#[test]
fn distinct_hashes_of_the_same_secret_both_verify() {
    // The salt is fresh per call, so the tokens differ; both still verify.
    let h1 = hash_secret("pw1").unwrap();
    let h2 = hash_secret("pw1").unwrap();
    assert_ne!(h1, h2);
    assert_eq!(verify_secret("pw1", &h1), Ok(true));
    assert_eq!(verify_secret("pw1", &h2), Ok(true));
}

#[test]
fn empty_secret_round_trips() {
    let h = hash_secret("").unwrap();
    assert_eq!(verify_secret("", &h), Ok(true));
    assert_eq!(verify_secret("x", &h), Ok(false));
}

#[test]
fn long_secret_round_trips() {
    let long: String = "a".repeat(100);
    let h = hash_secret(&long).unwrap();
    assert_eq!(verify_secret(&long, &h), Ok(true));
}

#[test]
fn malformed_stored_hash_is_an_error_not_a_refusal() {
    // A truncated legacy-form string is structurally invalid.
    assert_eq!(
        verify_secret("pw1", "$2b$12$tooshort"),
        Err(OpError::InvalidStoredHash)
    );
    assert_eq!(verify_secret("pw1", ""), Err(OpError::InvalidStoredHash));
}
