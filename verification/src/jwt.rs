//! Signed, time-bound session tokens: issuance for a subject, and
//! validation that fails closed on any signature mismatch, malformed token
//! or elapsed expiry.

use vstd::prelude::*;

verus! {

/// The signed token that encoding produces for a signing key, a subject and
/// an expiry instant: a function of the three alone.
pub uninterp spec fn jwt_token_of(secret: Seq<u8>, subject: Seq<char>, expires_at: u64) -> Seq<
    char,
>;

/// The subject and expiry that signature-checked decoding under a signing
/// key recovers from a token text, or nothing where the text is malformed,
/// its signature does not verify under that key, or its claims are not of
/// the shape this service issues.
pub uninterp spec fn jwt_claims_of(secret: Seq<u8>, token: Seq<char>) -> Option<(Seq<char>, u64)>;

/// Relies on jsonwebtoken::encode with HMAC-SHA256: the token is a function
/// of the key and the claims alone, and decoding it under the same key
/// recovers exactly the subject and expiry it was made with.
#[verifier::external_body]
fn encode_jwt(secret: &[u8], subject: &str, expires_at: u64) -> (r: String)
    ensures
        r@ == jwt_token_of(secret@, subject@, expires_at),
        jwt_claims_of(secret@, r@) == Some((subject@, expires_at)),
{
    let mut claims = serde_json::Map::new();
    claims.insert("sub".to_string(), serde_json::Value::String(subject.to_string()));
    claims.insert(
        "exp".to_string(),
        serde_json::Value::Number(serde_json::Number::from(expires_at)),
    );
    jsonwebtoken::encode(
        &jsonwebtoken::Header::default(),
        &serde_json::Value::Object(claims),
        &jsonwebtoken::EncodingKey::from_secret(secret),
    ).unwrap()
}

/// Relies on jsonwebtoken::decode with HMAC-SHA256: checks the signature
/// under the key and recovers the subject and expiry claims; rejects a
/// malformed token, a foreign signature, or claims of the wrong shape.
/// Expiry is not judged here: the caller holds it against its own clock.
#[verifier::external_body]
fn decode_jwt(secret: &[u8], token: &str) -> (r: Option<(String, u64)>)
    ensures
        match jwt_claims_of(secret@, token@) {
            Some(claims) => match r {
                Some(p) => p.0@ == claims.0 && p.1 == claims.1,
                None => false,
            },
            None => r is None,
        },
{
    let mut validation = jsonwebtoken::Validation::new(jsonwebtoken::Algorithm::HS256);
    validation.validate_exp = false;
    validation.required_spec_claims = std::collections::HashSet::new();
    let key = jsonwebtoken::DecodingKey::from_secret(secret);
    match jsonwebtoken::decode::<serde_json::Value>(token, &key, &validation) {
        Ok(data) => {
            let subject = data.claims.get("sub").and_then(|v| v.as_str());
            let expires_at = data.claims.get("exp").and_then(|v| v.as_u64());
            match (subject, expires_at) {
                (Some(s), Some(e)) => Some((s.to_string(), e)),
                _ => None,
            }
        },
        Err(_) => None,
    }
}

/// Issues and validates session tokens under one immutable signing key and
/// one fixed lifetime.
pub struct TokenService {
    secret: Vec<u8>,
    lifetime_secs: u64,
}

impl TokenService {
    /// The signing key.
    pub closed spec fn secret_key(&self) -> Seq<u8> {
        self.secret@
    }

    /// How long an issued token stays valid, in seconds.
    pub closed spec fn lifetime(&self) -> u64 {
        self.lifetime_secs
    }

    /// A service signing with `secret`, whose tokens expire `lifetime_secs`
    /// seconds after issuance.
    pub fn new(secret: Vec<u8>, lifetime_secs: u64) -> (r: Self)
        ensures
            r.secret_key() == secret@,
            r.lifetime() == lifetime_secs,
    {
        TokenService { secret, lifetime_secs }
    }

    /// How long an issued token stays valid, in seconds.
    pub fn lifetime_secs(&self) -> (r: u64)
        ensures
            r == self.lifetime(),
    {
        self.lifetime_secs
    }

    /// Issues a token for `subject` at instant `now`, expiring one lifetime
    /// later.
    pub fn issue_at(&self, subject: &str, now: u64) -> (r: String)
        requires
            now + self.lifetime() <= u64::MAX,
        ensures
            r@ == jwt_token_of(self.secret_key(), subject@, (now + self.lifetime()) as u64),
            jwt_claims_of(self.secret_key(), r@) == Some(
                (subject@, (now + self.lifetime()) as u64),
            ),
    {
        encode_jwt(self.secret.as_slice(), subject, now + self.lifetime_secs)
    }

    /// Validates `token` at instant `now`: the subject it was issued for,
    /// where its signature verifies under this service's key and its expiry
    /// lies after `now`; nothing otherwise.
    pub fn validate_at(&self, token: &str, now: u64) -> (r: Option<String>)
        ensures
            match jwt_claims_of(self.secret_key(), token@) {
                Some(claims) => if now < claims.1 {
                    match r {
                        Some(s) => s@ == claims.0,
                        None => false,
                    }
                } else {
                    r is None
                },
                None => r is None,
            },
    {
        match decode_jwt(self.secret.as_slice(), token) {
            Some(p) => if now < p.1 {
                Some(p.0)
            } else {
                None
            },
            None => None,
        }
    }
}

/// Law: a token validates to exactly its subject at any instant before its
/// expiry elapses.
pub fn issued_token_validates(
    svc: &TokenService,
    subject: &String,
    issued_at: u64,
    check_at: u64,
) -> (r: bool)
    requires
        issued_at + svc.lifetime() <= u64::MAX,
        check_at < issued_at + svc.lifetime(),
    ensures
        r,
{
    let token = svc.issue_at(subject.as_str(), issued_at);
    match svc.validate_at(token.as_str(), check_at) {
        Some(s) => s == *subject,
        None => false,
    }
}

/// Law: a token is rejected at any instant from its expiry on.
pub fn expired_token_is_rejected(
    svc: &TokenService,
    subject: &String,
    issued_at: u64,
    check_at: u64,
) -> (r: Option<String>)
    requires
        issued_at + svc.lifetime() <= u64::MAX,
        check_at >= issued_at + svc.lifetime(),
    ensures
        r is None,
{
    let token = svc.issue_at(subject.as_str(), issued_at);
    svc.validate_at(token.as_str(), check_at)
}

} // verus!
