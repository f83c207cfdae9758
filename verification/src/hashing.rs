//! Salted, memory-hard password hashing, and verification of a plaintext
//! against a stored hash.

use vstd::prelude::*;

verus! {

/// The shortest salt the hashing algorithm accepts, in bytes.
pub const MIN_SALT_LEN: usize = 8;

/// The longest password, salt or stored hash the hashing algorithm accepts,
/// in bytes.
pub const MAX_HASH_INPUT_LEN: usize = 0xFFFF_FFFF;

/// The encoded hash that the hashing algorithm produces for a password and
/// a salt: a function of the two alone.
pub uninterp spec fn argon2_hash_of(password: Seq<u8>, salt: Seq<u8>) -> Seq<char>;

/// Whether verification accepts a password against a stored encoded hash;
/// false where the stored text is not a well-formed encoded hash.
pub uninterp spec fn argon2_matches(encoded: Seq<char>, password: Seq<u8>) -> bool;

/// Relies on argon2::hash_encoded with the default configuration: the
/// encoded hash is a function of the password and the salt alone, and
/// argon2::verify_encoded accepts exactly the password it was computed
/// from against it.
#[verifier::external_body]
pub fn hash_password(password: &[u8], salt: &[u8]) -> (r: String)
    requires
        MIN_SALT_LEN <= salt@.len() <= MAX_HASH_INPUT_LEN,
        password@.len() <= MAX_HASH_INPUT_LEN,
    ensures
        r@ == argon2_hash_of(password@, salt@),
        argon2_matches(r@, password@),
        forall|other: Seq<u8>| other != password@ ==> !argon2_matches(r@, other),
{
    argon2::hash_encoded(password, salt, &argon2::Config::default()).unwrap()
}

/// Relies on argon2::verify_encoded: recomputes the hash with the salt and
/// parameters embedded in the encoded text and compares in constant time;
/// a malformed encoded text is rejected.
#[verifier::external_body]
pub fn verify_password(encoded: &str, password: &[u8]) -> (r: bool)
    ensures
        r == argon2_matches(encoded@, password@),
{
    argon2::verify_encoded(encoded, password).unwrap_or(false)
}

/// Law: verification accepts a plaintext against the hash computed from it.
pub fn hashed_password_verifies(password: &[u8], salt: &[u8]) -> (r: bool)
    requires
        MIN_SALT_LEN <= salt@.len() <= MAX_HASH_INPUT_LEN,
        password@.len() <= MAX_HASH_INPUT_LEN,
    ensures
        r,
{
    let encoded = hash_password(password, salt);
    verify_password(encoded.as_str(), password)
}

/// Law: verification rejects any other plaintext against the hash computed
/// from a password.
pub fn hashed_password_rejects_other(password: &[u8], other: &[u8], salt: &[u8]) -> (r: bool)
    requires
        MIN_SALT_LEN <= salt@.len() <= MAX_HASH_INPUT_LEN,
        password@.len() <= MAX_HASH_INPUT_LEN,
        password@ != other@,
    ensures
        !r,
{
    let encoded = hash_password(password, salt);
    verify_password(encoded.as_str(), other)
}

} // verus!
