//! Key-value persistence of user records: atomic uniqueness of usernames
//! and emails, and identifiers assigned once, monotonically, never reused.

use vstd::prelude::*;

verus! {

/// What a stored record holds, as the store's model sees it; records are
/// keyed by username.
pub ghost struct UserModel {
    pub id: u64,
    pub email: Seq<char>,
    pub password_hash: Seq<char>,
    pub active_token: Option<Seq<char>>,
}

/// A user record: identifier, the two unique keys, the password hash, and
/// the token of the session open for the user, if one is.
pub struct UserRecord {
    pub id: u64,
    pub username: String,
    pub email: String,
    pub password_hash: String,
    pub active_token: Option<String>,
}

/// The characters an optional token holds.
pub open spec fn token_view(t: Option<String>) -> Option<Seq<char>> {
    match t {
        Some(s) => Some(s@),
        None => None,
    }
}

impl UserRecord {
    /// The model of this record.
    pub open spec fn model(self) -> UserModel {
        UserModel {
            id: self.id,
            email: self.email@,
            password_hash: self.password_hash@,
            active_token: token_view(self.active_token),
        }
    }
}

/// The model of a record just created: no session is open for it yet.
pub open spec fn fresh_user(id: u64, email: Seq<char>, password_hash: Seq<char>) -> UserModel {
    UserModel { id, email, password_hash, active_token: None }
}

/// `m` with its session token replaced.
pub open spec fn with_token(m: UserModel, t: Option<Seq<char>>) -> UserModel {
    UserModel { id: m.id, email: m.email, password_hash: m.password_hash, active_token: t }
}

/// The map a sequence of records denotes, keyed by username.
pub open spec fn store_map(s: Seq<UserRecord>) -> Map<Seq<char>, UserModel>
    decreases s.len(),
{
    if s.len() == 0 {
        Map::empty()
    } else {
        store_map(s.drop_last()).insert(s.last().username@, s.last().model())
    }
}

/// Whether some record of `m` holds `email`.
pub open spec fn email_taken_in(m: Map<Seq<char>, UserModel>, email: Seq<char>) -> bool {
    exists|u: Seq<char>| m.contains_key(u) && m[u].email == email
}

/// Whether a `create` of `username` and `email` against the state `m` is
/// refused: one of the two keys is already held.
pub open spec fn create_conflicts(
    m: Map<Seq<char>, UserModel>,
    username: Seq<char>,
    email: Seq<char>,
) -> bool {
    m.contains_key(username) || email_taken_in(m, email)
}

/// Pairwise distinctness of the usernames of a sequence of records.
pub open spec fn usernames_distinct(s: Seq<UserRecord>) -> bool {
    forall|i: int, j: int| 0 <= i < j < s.len() ==> s[i].username@ != s[j].username@
}

/// With distinct usernames, the map holds each record under its username.
proof fn lemma_store_map_index(s: Seq<UserRecord>, i: int)
    requires
        usernames_distinct(s),
        0 <= i < s.len(),
    ensures
        store_map(s).contains_key(s[i].username@),
        store_map(s)[s[i].username@] == s[i].model(),
    decreases s.len(),
{
    if i == s.len() - 1 {
    } else {
        assert(usernames_distinct(s.drop_last()));
        lemma_store_map_index(s.drop_last(), i);
        assert(s.last().username@ != s[i].username@);
    }
}

/// Every key the map holds is the username of some record, bound to that
/// record's model.
proof fn lemma_store_map_covers(s: Seq<UserRecord>, k: Seq<char>)
    requires
        store_map(s).contains_key(k),
    ensures
        exists|i: int|
            0 <= i < s.len() && s[i].username@ == k && store_map(s)[k] == s[i].model(),
    decreases s.len(),
{
    if s.last().username@ == k {
        assert(0 <= s.len() - 1 < s.len() && s[s.len() - 1].username@ == k && store_map(s)[k]
            == s[s.len() - 1].model());
    } else {
        lemma_store_map_covers(s.drop_last(), k);
        let i = choose|i: int|
            0 <= i < s.drop_last().len() && s.drop_last()[i].username@ == k && store_map(
                s.drop_last(),
            )[k] == s.drop_last()[i].model();
        assert(0 <= i < s.len() && s[i].username@ == k && store_map(s)[k] == s[i].model());
    }
}

/// Replacing the record at `i` by one of the same username moves the map to
/// the new record's model at that username.
proof fn lemma_store_map_update(s: Seq<UserRecord>, i: int, r2: UserRecord)
    requires
        usernames_distinct(s),
        0 <= i < s.len(),
        r2.username@ == s[i].username@,
    ensures
        store_map(s.update(i, r2)) == store_map(s).insert(s[i].username@, r2.model()),
    decreases s.len(),
{
    let k = s[i].username@;
    if i == s.len() - 1 {
        assert(s.update(i, r2).drop_last() =~= s.drop_last());
        assert(s.update(i, r2).last() == r2);
        assert(store_map(s.drop_last()).insert(k, r2.model()) =~= store_map(
            s.drop_last(),
        ).insert(k, s.last().model()).insert(k, r2.model()));
    } else {
        assert(usernames_distinct(s.drop_last()));
        lemma_store_map_update(s.drop_last(), i, r2);
        assert(s.update(i, r2).drop_last() =~= s.drop_last().update(i, r2));
        assert(s.update(i, r2).last() == s.last());
        assert(s.last().username@ != k);
        assert(store_map(s.drop_last()).insert(k, r2.model()).insert(
            s.last().username@,
            s.last().model(),
        ) =~= store_map(s.drop_last()).insert(s.last().username@, s.last().model()).insert(
            k,
            r2.model(),
        ));
    }
}

/// Removing the record at `i` removes exactly its username from the map.
proof fn lemma_store_map_remove(s: Seq<UserRecord>, i: int)
    requires
        usernames_distinct(s),
        0 <= i < s.len(),
    ensures
        store_map(s.remove(i)) == store_map(s).remove(s[i].username@),
    decreases s.len(),
{
    let k = s[i].username@;
    if i == s.len() - 1 {
        assert(s.remove(i) =~= s.drop_last());
        if store_map(s.drop_last()).contains_key(k) {
            lemma_store_map_covers(s.drop_last(), k);
            assert(false);
        }
        assert(store_map(s.drop_last()) =~= store_map(s.drop_last()).insert(
            k,
            s.last().model(),
        ).remove(k));
    } else {
        assert(usernames_distinct(s.drop_last()));
        lemma_store_map_remove(s.drop_last(), i);
        assert(s.remove(i).drop_last() =~= s.drop_last().remove(i));
        assert(s.remove(i).last() == s.last());
        assert(s.last().username@ != k);
        assert(store_map(s.drop_last()).remove(k).insert(s.last().username@, s.last().model())
            =~= store_map(s.drop_last()).insert(s.last().username@, s.last().model()).remove(k));
    }
}

/// The error `create` answers: one of the unique keys asked for is already
/// held. Absence of a record is answered in kind by the lookups themselves.
#[derive(Debug)]
pub enum StoreError {
    AlreadyExists,
}

/// The store: user records with unique usernames, unique emails, and
/// identifiers below the next one to assign.
pub struct UserStore {
    users: Vec<UserRecord>,
    next_id: u64,
}

impl View for UserStore {
    type V = Map<Seq<char>, UserModel>;

    closed spec fn view(&self) -> Map<Seq<char>, UserModel> {
        store_map(self.users@)
    }
}

impl UserStore {
    /// Well-formedness: usernames and emails pairwise distinct, and every
    /// identifier assigned so far below the next one.
    pub closed spec fn wf(&self) -> bool {
        &&& usernames_distinct(self.users@)
        &&& forall|i: int, j: int|
            0 <= i < j < self.users@.len() ==> self.users@[i].email@ != self.users@[j].email@
        &&& forall|i: int| 0 <= i < self.users@.len() ==> self.users@[i].id < self.next_id
    }

    /// The identifier the next created record receives.
    pub closed spec fn next_user_id(&self) -> u64 {
        self.next_id
    }

    /// An empty store; the first record created receives identifier 1.
    pub fn new() -> (r: Self)
        ensures
            r.wf(),
            r@ == Map::<Seq<char>, UserModel>::empty(),
            r.next_user_id() == 1,
    {
        UserStore { users: Vec::new(), next_id: 1 }
    }

    /// Whether an identifier is still available for a further record.
    pub fn ids_available(&self) -> (r: bool)
        ensures
            r == (self.next_user_id() < u64::MAX),
    {
        self.next_id < u64::MAX
    }

    /// The record held under `username`, if one is.
    pub fn find_by_username(&self, username: &String) -> (r: Option<&UserRecord>)
        requires
            self.wf(),
        ensures
            match r {
                Some(rec) => self@.contains_key(username@) && rec.username@ == username@
                    && rec.model() == self@[username@],
                None => !self@.contains_key(username@),
            },
    {
        let mut i: usize = 0;
        while i < self.users.len()
            invariant
                self.wf(),
                i <= self.users@.len(),
                forall|j: int| 0 <= j < i ==> self.users@[j].username@ != username@,
            decreases self.users@.len() - i,
        {
            if self.users[i].username == *username {
                proof {
                    lemma_store_map_index(self.users@, i as int);
                }
                return Some(&self.users[i]);
            }
            i = i + 1;
        }
        proof {
            if self@.contains_key(username@) {
                lemma_store_map_covers(self.users@, username@);
            }
        }
        None
    }

    /// Whether some record holds `email`.
    pub fn email_taken(&self, email: &String) -> (r: bool)
        requires
            self.wf(),
        ensures
            r == email_taken_in(self@, email@),
    {
        let mut i: usize = 0;
        while i < self.users.len()
            invariant
                self.wf(),
                i <= self.users@.len(),
                forall|j: int| 0 <= j < i ==> self.users@[j].email@ != email@,
            decreases self.users@.len() - i,
        {
            if self.users[i].email == *email {
                proof {
                    lemma_store_map_index(self.users@, i as int);
                }
                return true;
            }
            i = i + 1;
        }
        proof {
            if email_taken_in(self@, email@) {
                let u = choose|u: Seq<char>| self@.contains_key(u) && self@[u].email == email@;
                lemma_store_map_covers(self.users@, u);
            }
        }
        false
    }

    /// Creates a record for `username` and `email`, checking both unique
    /// keys and inserting as one atomic step against this store; the new
    /// identifier lies above every identifier assigned before.
    pub fn create(&mut self, username: &String, email: &String, password_hash: &String) -> (r:
        Result<u64, StoreError>)
        requires
            old(self).wf(),
            old(self).next_user_id() < u64::MAX,
        ensures
            final(self).wf(),
            match r {
                Ok(id) => {
                    &&& !create_conflicts(old(self)@, username@, email@)
                    &&& id == old(self).next_user_id()
                    &&& final(self).next_user_id() == old(self).next_user_id() + 1
                    &&& final(self)@ == old(self)@.insert(
                        username@,
                        fresh_user(id, email@, password_hash@),
                    )
                    &&& forall|u: Seq<char>|
                        old(self)@.contains_key(u) ==> old(self)@[u].id < id
                },
                Err(e) => {
                    &&& e is AlreadyExists
                    &&& create_conflicts(old(self)@, username@, email@)
                    &&& final(self)@ == old(self)@
                    &&& final(self).next_user_id() == old(self).next_user_id()
                },
            },
    {
        if self.find_by_username(username).is_some() {
            return Err(StoreError::AlreadyExists);
        }
        if self.email_taken(email) {
            return Err(StoreError::AlreadyExists);
        }
        let id = self.next_id;
        let rec = UserRecord {
            id,
            username: username.clone(),
            email: email.clone(),
            password_hash: password_hash.clone(),
            active_token: None,
        };
        let ghost prior = self.users@;
        let ghost new_rec = rec;
        self.users.push(rec);
        self.next_id = id + 1;
        proof {
            assert(self.users@.drop_last() =~= prior);
            assert(self.users@.last() == new_rec);
            assert forall|i: int| 0 <= i < prior.len() implies prior[i].username@
                != username@ by {
                lemma_store_map_index(prior, i);
            }
            assert forall|i: int| 0 <= i < prior.len() implies prior[i].email@ != email@ by {
                lemma_store_map_index(prior, i);
            }
            assert forall|u: Seq<char>| store_map(prior).contains_key(u) implies store_map(
                prior,
            )[u].id < id by {
                lemma_store_map_covers(prior, u);
            }
        }
        Ok(id)
    }

    /// Replaces the session token of the record held under `username`, and
    /// says whether such a record exists; nothing else changes.
    pub fn update_token(&mut self, username: &String, token: Option<String>) -> (r: bool)
        requires
            old(self).wf(),
        ensures
            final(self).wf(),
            final(self).next_user_id() == old(self).next_user_id(),
            r == old(self)@.contains_key(username@),
            r ==> final(self)@ == old(self)@.insert(
                username@,
                with_token(old(self)@[username@], token_view(token)),
            ),
            !r ==> final(self)@ == old(self)@,
    {
        let mut i: usize = 0;
        while i < self.users.len()
            invariant
                self.wf(),
                i <= self.users@.len(),
                forall|j: int| 0 <= j < i ==> self.users@[j].username@ != username@,
                *self == *old(self),
            decreases self.users@.len() - i,
        {
            if self.users[i].username == *username {
                let new_rec = UserRecord {
                    id: self.users[i].id,
                    username: self.users[i].username.clone(),
                    email: self.users[i].email.clone(),
                    password_hash: self.users[i].password_hash.clone(),
                    active_token: token,
                };
                let ghost prior = self.users@;
                let ghost replacement = new_rec;
                proof {
                    lemma_store_map_index(prior, i as int);
                    lemma_store_map_update(prior, i as int, replacement);
                }
                self.users[i] = new_rec;
                proof {
                    assert(self.users@ =~= prior.update(i as int, replacement));
                }
                return true;
            }
            i = i + 1;
        }
        proof {
            if self@.contains_key(username@) {
                lemma_store_map_covers(self.users@, username@);
            }
        }
        false
    }

    /// Removes the record held under `username`, and says whether one was.
    pub fn delete(&mut self, username: &String) -> (r: bool)
        requires
            old(self).wf(),
        ensures
            final(self).wf(),
            final(self).next_user_id() == old(self).next_user_id(),
            r == old(self)@.contains_key(username@),
            r ==> final(self)@ == old(self)@.remove(username@),
            !r ==> final(self)@ == old(self)@,
    {
        let mut i: usize = 0;
        while i < self.users.len()
            invariant
                self.wf(),
                i <= self.users@.len(),
                forall|j: int| 0 <= j < i ==> self.users@[j].username@ != username@,
                *self == *old(self),
            decreases self.users@.len() - i,
        {
            if self.users[i].username == *username {
                let ghost prior = self.users@;
                proof {
                    lemma_store_map_index(prior, i as int);
                    lemma_store_map_remove(prior, i as int);
                }
                self.users.remove(i);
                proof {
                    assert(self.users@ =~= prior.remove(i as int));
                }
                return true;
            }
            i = i + 1;
        }
        proof {
            if self@.contains_key(username@) {
                lemma_store_map_covers(self.users@, username@);
            }
        }
        false
    }
}

/// Law: once a `create` of `username` has succeeded against a state, a
/// second `create` of the same `username` conflicts against the state it
/// left, whatever email it brings: of two concurrent calls, the one the
/// store serializes second fails with AlreadyExists.
pub proof fn lemma_create_excludes_duplicate_username(
    m: Map<Seq<char>, UserModel>,
    username: Seq<char>,
    rec: UserModel,
    email2: Seq<char>,
)
    ensures
        create_conflicts(m.insert(username, rec), username, email2),
{
}

/// Law: once a `create` has succeeded against a state, a second `create`
/// bringing the same email conflicts against the state it left, whatever
/// username it brings.
pub proof fn lemma_create_excludes_duplicate_email(
    m: Map<Seq<char>, UserModel>,
    username1: Seq<char>,
    rec: UserModel,
    username2: Seq<char>,
)
    ensures
        create_conflicts(m.insert(username1, rec), username2, rec.email),
{
    let m2 = m.insert(username1, rec);
    assert(m2.contains_key(username1) && m2[username1].email == rec.email);
}

} // verus!
