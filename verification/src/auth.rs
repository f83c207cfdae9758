//! Registration, login and logout, orchestrating the user store, the
//! password hasher and the token service. Sessions are single: a fresh
//! login replaces the active token, and logout demands exactly the active
//! token. The operations are exposed as their own endpoints, not through
//! the method registry.

use vstd::prelude::*;
use crate::hashing::{
    argon2_hash_of, argon2_matches, hash_password, verify_password, MAX_HASH_INPUT_LEN,
    MIN_SALT_LEN,
};
use crate::jwt::{jwt_token_of, TokenService};
use crate::store::{
    create_conflicts, email_taken_in, fresh_user, with_token, UserModel, UserStore,
};

verus! {

/// The failure of an authentication operation. Registration refuses a held
/// username or email; login refuses an unknown user or a wrong password;
/// logout refuses an unknown user or a token other than the active one.
#[derive(Debug)]
pub enum AuthError {
    UsernameTaken,
    EmailTaken,
    UserNotFound,
    InvalidCredentials,
    InvalidToken,
}

/// The public view of a user that an operation answers: identifier, the
/// two keys, and the session token issued — never the password hash.
pub struct UserView {
    pub id: u64,
    pub username: String,
    pub email: String,
    pub token: String,
}

/// The identity service: a user store, and a token service signing with
/// one immutable key.
pub struct AuthService {
    store: UserStore,
    tokens: TokenService,
}

impl View for AuthService {
    type V = Map<Seq<char>, UserModel>;

    closed spec fn view(&self) -> Map<Seq<char>, UserModel> {
        self.store@
    }
}

impl AuthService {
    /// Well-formedness of the underlying store.
    pub closed spec fn wf(&self) -> bool {
        self.store.wf()
    }

    /// The signing key of the token service.
    pub closed spec fn secret_key(&self) -> Seq<u8> {
        self.tokens.secret_key()
    }

    /// How long an issued session token stays valid, in seconds.
    pub closed spec fn token_lifetime(&self) -> u64 {
        self.tokens.lifetime()
    }

    /// The identifier the next registered user receives.
    pub closed spec fn next_user_id(&self) -> u64 {
        self.store.next_user_id()
    }

    /// A service with no users, signing with `secret`; its tokens expire
    /// `token_lifetime_secs` seconds after issuance.
    pub fn new(secret: Vec<u8>, token_lifetime_secs: u64) -> (r: Self)
        ensures
            r.wf(),
            r@ == Map::<Seq<char>, UserModel>::empty(),
            r.secret_key() == secret@,
            r.token_lifetime() == token_lifetime_secs,
            r.next_user_id() == 1,
    {
        AuthService { store: UserStore::new(), tokens: TokenService::new(secret, token_lifetime_secs) }
    }

    /// Whether an identifier is still available for a new registration.
    pub fn ids_available(&self) -> (r: bool)
        ensures
            r == (self.next_user_id() < u64::MAX),
    {
        self.store.ids_available()
    }

    /// How long an issued session token stays valid, in seconds.
    pub fn token_lifetime_secs(&self) -> (r: u64)
        ensures
            r == self.token_lifetime(),
    {
        self.tokens.lifetime_secs()
    }

    /// Validates a session token at instant `now`: the subject it was
    /// issued for, where its signature verifies under this service's key
    /// and its expiry lies after `now`.
    pub fn validate_token_at(&self, token: &String, now: u64) -> (r: Option<String>)
        ensures
            match crate::jwt::jwt_claims_of(self.secret_key(), token@) {
                Some(claims) => if now < claims.1 {
                    match r {
                        Some(s) => s@ == claims.0,
                        None => false,
                    }
                } else {
                    r is None
                },
                None => r is None,
            },
    {
        self.tokens.validate_at(token.as_str(), now)
    }

    /// Registers a user: refuses a held username, then a held email, then
    /// hashes the password with `salt`, creates the record atomically,
    /// issues a token expiring one lifetime after `now`, persists it as the
    /// active token, and answers the public view.
    pub fn register_user(
        &mut self,
        username: &String,
        password: &[u8],
        email: &String,
        salt: &[u8],
        now: u64,
    ) -> (r: Result<UserView, AuthError>)
        requires
            old(self).wf(),
            old(self).next_user_id() < u64::MAX,
            MIN_SALT_LEN <= salt@.len() <= MAX_HASH_INPUT_LEN,
            password@.len() <= MAX_HASH_INPUT_LEN,
            now + old(self).token_lifetime() <= u64::MAX,
        ensures
            final(self).wf(),
            final(self).secret_key() == old(self).secret_key(),
            final(self).token_lifetime() == old(self).token_lifetime(),
            r is Err <==> create_conflicts(old(self)@, username@, email@),
            match r {
                Ok(v) => {
                    &&& v.id == old(self).next_user_id()
                    &&& final(self).next_user_id() == old(self).next_user_id() + 1
                    &&& forall|u: Seq<char>|
                        old(self)@.contains_key(u) ==> old(self)@[u].id < v.id
                    &&& v.username@ == username@
                    &&& v.email@ == email@
                    &&& v.token@ == jwt_token_of(
                        old(self).secret_key(),
                        username@,
                        (now + old(self).token_lifetime()) as u64,
                    )
                    &&& final(self)@ == old(self)@.insert(
                        username@,
                        with_token(
                            fresh_user(v.id, email@, argon2_hash_of(password@, salt@)),
                            Some(v.token@),
                        ),
                    )
                    &&& argon2_matches(argon2_hash_of(password@, salt@), password@)
                    &&& forall|other: Seq<u8>|
                        other != password@ ==> !argon2_matches(
                            argon2_hash_of(password@, salt@),
                            other,
                        )
                },
                Err(e) => {
                    &&& final(self)@ == old(self)@
                    &&& final(self).next_user_id() == old(self).next_user_id()
                    &&& (e is UsernameTaken <==> old(self)@.contains_key(username@))
                    &&& (e is EmailTaken <==> !old(self)@.contains_key(username@)
                        && email_taken_in(old(self)@, email@))
                    &&& (e is UsernameTaken || e is EmailTaken)
                },
            },
    {
        if self.store.find_by_username(username).is_some() {
            return Err(AuthError::UsernameTaken);
        }
        if self.store.email_taken(email) {
            return Err(AuthError::EmailTaken);
        }
        let hash = hash_password(password, salt);
        let id = match self.store.create(username, email, &hash) {
            Ok(id) => id,
            Err(_) => {
                proof {
                    assert(false);
                }
                return Err(AuthError::UsernameTaken);
            },
        };
        let token = self.tokens.issue_at(username.as_str(), now);
        self.store.update_token(username, Some(token.clone()));
        proof {
            assert(self.store@ =~= old(self)@.insert(
                username@,
                with_token(
                    fresh_user(id, email@, argon2_hash_of(password@, salt@)),
                    Some(token@),
                ),
            ));
        }
        Ok(UserView { id, username: username.clone(), email: email.clone(), token })
    }

    /// Logs a user in: refuses an unknown username, then a password the
    /// stored hash does not verify; otherwise issues a fresh token expiring
    /// one lifetime after `now`, persists it as the active token, and
    /// answers the public view.
    pub fn login_user(&mut self, username: &String, password: &[u8], now: u64) -> (r: Result<
        UserView,
        AuthError,
    >)
        requires
            old(self).wf(),
            now + old(self).token_lifetime() <= u64::MAX,
        ensures
            final(self).wf(),
            final(self).secret_key() == old(self).secret_key(),
            final(self).token_lifetime() == old(self).token_lifetime(),
            final(self).next_user_id() == old(self).next_user_id(),
            match r {
                Ok(v) => {
                    &&& old(self)@.contains_key(username@)
                    &&& argon2_matches(old(self)@[username@].password_hash, password@)
                    &&& v.id == old(self)@[username@].id
                    &&& v.username@ == username@
                    &&& v.email@ == old(self)@[username@].email
                    &&& v.token@ == jwt_token_of(
                        old(self).secret_key(),
                        username@,
                        (now + old(self).token_lifetime()) as u64,
                    )
                    &&& final(self)@ == old(self)@.insert(
                        username@,
                        with_token(old(self)@[username@], Some(v.token@)),
                    )
                },
                Err(e) => {
                    &&& final(self)@ == old(self)@
                    &&& (e is UserNotFound <==> !old(self)@.contains_key(username@))
                    &&& (e is InvalidCredentials <==> old(self)@.contains_key(username@)
                        && !argon2_matches(old(self)@[username@].password_hash, password@))
                    &&& (e is UserNotFound || e is InvalidCredentials)
                },
            },
    {
        let found = self.store.find_by_username(username);
        let (id, email, stored_hash) = match found {
            Some(rec) => (rec.id, rec.email.clone(), rec.password_hash.clone()),
            None => {
                return Err(AuthError::UserNotFound);
            },
        };
        if !verify_password(stored_hash.as_str(), password) {
            return Err(AuthError::InvalidCredentials);
        }
        let token = self.tokens.issue_at(username.as_str(), now);
        self.store.update_token(username, Some(token.clone()));
        Ok(UserView { id, username: username.clone(), email, token })
    }

    /// Logs a user out: refuses an unknown username, then a token other
    /// than the active one; otherwise clears the active token.
    pub fn logout_user(&mut self, username: &String, token: &String) -> (r: Result<
        (),
        AuthError,
    >)
        requires
            old(self).wf(),
        ensures
            final(self).wf(),
            final(self).secret_key() == old(self).secret_key(),
            final(self).token_lifetime() == old(self).token_lifetime(),
            final(self).next_user_id() == old(self).next_user_id(),
            match r {
                Ok(_) => {
                    &&& old(self)@.contains_key(username@)
                    &&& old(self)@[username@].active_token == Some(token@)
                    &&& final(self)@ == old(self)@.insert(
                        username@,
                        with_token(old(self)@[username@], None),
                    )
                },
                Err(e) => {
                    &&& final(self)@ == old(self)@
                    &&& (e is UserNotFound <==> !old(self)@.contains_key(username@))
                    &&& (e is InvalidToken <==> old(self)@.contains_key(username@)
                        && old(self)@[username@].active_token != Some(token@))
                    &&& (e is UserNotFound || e is InvalidToken)
                },
            },
    {
        let found = self.store.find_by_username(username);
        let active = match found {
            Some(rec) => match &rec.active_token {
                Some(t) => Some(t.clone()),
                None => None,
            },
            None => {
                return Err(AuthError::UserNotFound);
            },
        };
        let token_matches = match &active {
            Some(t) => *t == *token,
            None => false,
        };
        if !token_matches {
            return Err(AuthError::InvalidToken);
        }
        self.store.update_token(username, None);
        Ok(())
    }
}

} // verus!
