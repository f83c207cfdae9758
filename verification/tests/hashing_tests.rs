use bitcommweb::hashing::{
    hash_password, hashed_password_rejects_other, hashed_password_verifies, verify_password,
};

#[test]
fn verify_accepts_the_hashed_password() {
    let encoded = hash_password(b"pw1", b"somesalt");
    assert!(verify_password(&encoded, b"pw1"));
}

#[test]
fn verify_rejects_another_password() {
    let encoded = hash_password(b"pw1", b"somesalt");
    assert!(!verify_password(&encoded, b"pw2"));
    assert!(!verify_password(&encoded, b""));
}

#[test]
fn verify_rejects_malformed_stored_text() {
    assert!(!verify_password("", b"pw1"));
    assert!(!verify_password("not an encoded hash", b"pw1"));
}

#[test]
fn hashes_of_one_password_under_two_salts_both_verify() {
    let first = hash_password(b"pw1", b"salt-one");
    let second = hash_password(b"pw1", b"salt-two");
    assert_ne!(first, second);
    assert!(verify_password(&first, b"pw1"));
    assert!(verify_password(&second, b"pw1"));
}

#[test]
fn hashing_laws_hold_on_sample_inputs() {
    assert!(hashed_password_verifies(b"a plaintext", b"12345678"));
    assert!(!hashed_password_rejects_other(b"a plaintext", b"another", b"12345678"));
}

#[test]
fn empty_password_round_trips() {
    let encoded = hash_password(b"", b"somesalt");
    assert!(verify_password(&encoded, b""));
    assert!(!verify_password(&encoded, b"x"));
}
