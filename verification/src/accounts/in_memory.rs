//! Stores of users and sessions kept in memory.
use std::collections::HashMap;
use vstd::prelude::*;
use crate::accounts::domain::{Email, Session, SessionTokenHash, SessionView, User, UserId, UserView};
use crate::accounts::ports::{SessionRepositoryError, UserRepositoryError};
use crate::keyed::{
    index_map, keys_unique, lemma_index_map_dom, lemma_index_map_remove, lemma_index_map_value,
    lemma_keys_unique_push,
};

verus! {

broadcast use vstd::std_specs::hash::group_hash_axioms;

/// The users of `ids` that `users` holds, in the order of `ids`.
pub open spec fn users_for_ids(users: Map<u128, UserView>, ids: Seq<UserId>) -> Seq<UserView>
    decreases ids.len(),
{
    if ids.len() == 0 {
        Seq::empty()
    } else {
        let found = users_for_ids(users, ids.drop_last());
        if users.contains_key(ids.last().value()) {
            found.push(users[ids.last().value()])
        } else {
            found
        }
    }
}

/// Whether some user of `users` has the email address `email`.
pub open spec fn email_taken(users: Map<u128, UserView>, email: Seq<char>) -> bool {
    exists|k: u128| users.contains_key(k) && #[trigger] users[k].email == email
}

/// A user store: every user is filed under its identifier, and no two users
/// share an email address.
pub struct InMemoryUserRepository {
    users: HashMap<u128, User>,
}

impl View for InMemoryUserRepository {
    type V = Map<u128, UserView>;

    closed spec fn view(&self) -> Map<u128, UserView> {
        self.users@.map_values(|u: User| u@)
    }
}

impl InMemoryUserRepository {
    /// The store is consistent: users are filed under their own identifiers
    /// and email addresses are unique.
    pub closed spec fn wf(&self) -> bool {
        &&& forall|k: u128| #[trigger]
            self.users@.contains_key(k) ==> self.users@[k]@.id.value() == k
        &&& forall|k1: u128, k2: u128|
            #![trigger self.users@[k1], self.users@[k2]]
            self.users@.contains_key(k1) && self.users@.contains_key(k2) && k1 != k2
                ==> self.users@[k1]@.email != self.users@[k2]@.email
    }

    pub fn new() -> (r: InMemoryUserRepository)
        ensures
            r.wf(),
            r@ == Map::<u128, UserView>::empty(),
    {
        let r = InMemoryUserRepository { users: HashMap::new() };
        assert(r@ =~= Map::<u128, UserView>::empty());
        r
    }

    /// Stores `user`, refusing it where another user already has its email
    /// address. A user filed under the same identifier is replaced.
    pub fn insert(&mut self, user: &User) -> (r: Result<(), UserRepositoryError>)
        requires
            old(self).wf(),
        ensures
            final(self).wf(),
            email_taken(old(self)@, user@.email) ==> r == Err::<(), UserRepositoryError>(
                UserRepositoryError::EmailAlreadyExists,
            ) && final(self)@ == old(self)@,
            !email_taken(old(self)@, user@.email) ==> r is Ok && final(self)@ == old(self)@.insert(
                user@.id.value(),
                user@,
            ),
    {
        match self.key_of_email(user.email()) {
            Some(k) => {
                assert(self@.contains_key(k) && self@[k].email == user@.email);
                return Err(UserRepositoryError::EmailAlreadyExists);
            },
            None => {},
        }
        let ghost before = self.users@;
        let ghost before_view = self@;
        self.users.insert(user.id().into_uuid(), user.clone());
        proof {
            assert(!email_taken(before_view, user@.email)) by {
                if email_taken(before_view, user@.email) {
                    let k = choose|k: u128|
                        before_view.contains_key(k) && #[trigger] before_view[k].email
                            == user@.email;
                    assert(before[k]@.email != user@.email);
                }
            }
            assert(self@ =~= before_view.insert(user@.id.value(), user@));
        }
        Ok(())
    }

    pub fn find_by_id(&self, id: &UserId) -> (r: Result<Option<User>, UserRepositoryError>)
        ensures
            r matches Ok(found) && match found {
                Some(u) => self@.contains_key(id.value()) && u@ == self@[id.value()],
                None => !self@.contains_key(id.value()),
            },
    {
        match self.users.get(&id.as_uuid()) {
            Some(u) => Ok(Some(u.clone())),
            None => Ok(None),
        }
    }

    pub fn find_by_email(&self, email: &Email) -> (r: Result<Option<User>, UserRepositoryError>)
        requires
            self.wf(),
        ensures
            r matches Ok(found) && match found {
                Some(u) => self@.contains_key(u@.id.value()) && self@[u@.id.value()] == u@
                    && u@.email == email@,
                None => !email_taken(self@, email@),
            },
    {
        match self.key_of_email(email) {
            Some(k) => {
                let u = self.users.get(&k).unwrap();
                Ok(Some(u.clone()))
            },
            None => {
                proof {
                    if email_taken(self@, email@) {
                        let k = choose|k: u128|
                            self@.contains_key(k) && #[trigger] self@[k].email == email@;
                        assert(self.users@[k]@.email != email@);
                    }
                }
                Ok(None)
            },
        }
    }

    /// The stored users among `ids`, in the order of `ids`; unknown
    /// identifiers are skipped.
    pub fn find_by_ids(&self, ids: &[UserId]) -> (r: Result<Vec<User>, UserRepositoryError>)
        ensures
            r matches Ok(found) && found@.map_values(|u: User| u@) == users_for_ids(self@, ids@),
    {
        let mut found: Vec<User> = Vec::new();
        let mut i: usize = 0;
        while i < ids.len()
            invariant
                i <= ids@.len(),
                found@.map_values(|u: User| u@) == users_for_ids(self@, ids@.take(i as int)),
            decreases ids@.len() - i,
        {
            let id = ids[i];
            proof {
                assert(ids@.take(i + 1).drop_last() =~= ids@.take(i as int));
            }
            match self.users.get(&id.as_uuid()) {
                Some(u) => {
                    found.push(u.clone());
                    assert(found@.map_values(|u: User| u@) =~= users_for_ids(
                        self@,
                        ids@.take(i as int),
                    ).push(self@[id.value()]));
                },
                None => {},
            }
            i = i + 1;
        }
        assert(ids@.take(ids@.len() as int) =~= ids@);
        Ok(found)
    }

    /// The identifier under which a user with this email address is filed.
    fn key_of_email(&self, email: &Email) -> (r: Option<u128>)
        ensures
            match r {
                Some(k) => self.users@.contains_key(k) && self.users@[k]@.email == email@,
                None => forall|k: u128|
                    self.users@.contains_key(k) ==> #[trigger] self.users@[k]@.email != email@,
            },
    {
        for (k, u) in it: self.users.iter()
            invariant
                forall|i: int|
                    0 <= i < it.index() ==> (#[trigger] it.seq()[i]).1@.email != email@,
        {
            if u.email().same_as(email) {
                return Some(*k);
            }
        }
        None
    }
}

/// No two users of a consistent store share an email address.
pub proof fn lemma_emails_unique(repository: &InMemoryUserRepository, k1: u128, k2: u128)
    requires
        repository.wf(),
        repository@.contains_key(k1),
        repository@.contains_key(k2),
        k1 != k2,
    ensures
        repository@[k1].email != repository@[k2].email,
{
    assert(repository.users@[k1]@.email != repository.users@[k2]@.email);
}

/// After a user is stored, it is found under its identifier and under its
/// email address, the other users are unchanged, and a further user with the
/// same email address is refused.
pub proof fn lemma_user_read_after_write(users: Map<u128, UserView>, user: UserView, k: u128)
    ensures
        users.insert(user.id.value(), user).contains_key(user.id.value()),
        users.insert(user.id.value(), user)[user.id.value()] == user,
        email_taken(users.insert(user.id.value(), user), user.email),
        k != user.id.value() ==> users.insert(user.id.value(), user).contains_key(k)
            == users.contains_key(k) && (users.contains_key(k) ==> users.insert(
            user.id.value(),
            user,
        )[k] == users[k]),
{
    let after = users.insert(user.id.value(), user);
    assert(after.contains_key(user.id.value()) && after[user.id.value()].email == user.email);
}

/// A session is filed under its token hash.
pub open spec fn session_key() -> spec_fn(SessionView) -> Seq<char> {
    |v: SessionView| v.token_hash
}

/// A session store: no two sessions share a token hash. The sessions are
/// kept in a `Vec` whose token hashes are unique: vstd gives a hash-table
/// key model only to integer, `bool` and boxed keys, not to `String`, so a
/// `HashMap` keyed by the hash could not be reasoned about.
pub struct InMemorySessionRepository {
    sessions: Vec<Session>,
}

impl View for InMemorySessionRepository {
    type V = Map<Seq<char>, SessionView>;

    closed spec fn view(&self) -> Map<Seq<char>, SessionView> {
        index_map(self.records(), session_key())
    }
}

impl InMemorySessionRepository {
    closed spec fn records(&self) -> Seq<SessionView> {
        self.sessions@.map_values(|s: Session| s@)
    }

    /// The store is consistent: token hashes are unique.
    pub closed spec fn wf(&self) -> bool {
        keys_unique(self.records(), session_key())
    }

    pub fn new() -> (r: InMemorySessionRepository)
        ensures
            r.wf(),
            r@ == Map::<Seq<char>, SessionView>::empty(),
    {
        let r = InMemorySessionRepository { sessions: Vec::new() };
        assert(r.records() =~= Seq::<SessionView>::empty());
        r
    }

    /// Where the session with this token hash is kept.
    fn position_of(&self, token_hash: &SessionTokenHash) -> (r: Option<usize>)
        ensures
            match r {
                Some(i) => i < self.sessions@.len() && self.records()[i as int].token_hash
                    == token_hash@,
                None => !self@.contains_key(token_hash@),
            },
    {
        let mut i: usize = 0;
        while i < self.sessions.len()
            invariant
                i <= self.sessions@.len(),
                forall|j: int|
                    0 <= j < i ==> (#[trigger] self.records()[j]).token_hash != token_hash@,
            decreases self.sessions@.len() - i,
        {
            if self.sessions[i].token_hash().same_as(token_hash) {
                return Some(i);
            }
            i = i + 1;
        }
        proof {
            lemma_index_map_dom(self.records(), session_key(), token_hash@);
            if self@.contains_key(token_hash@) {
                let j = choose|j: int|
                    0 <= j < self.records().len() && #[trigger] session_key()(self.records()[j])
                        == token_hash@;
                assert(self.records()[j].token_hash != token_hash@);
            }
        }
        None
    }

    /// Persists a new session, refusing it where another session already
    /// uses its token hash.
    pub fn insert(&mut self, session: &Session) -> (r: Result<(), SessionRepositoryError>)
        requires
            old(self).wf(),
        ensures
            final(self).wf(),
            old(self)@.contains_key(session@.token_hash) ==> r == Err::<(), SessionRepositoryError>(
                SessionRepositoryError::TokenHashAlreadyExists,
            ) && final(self)@ == old(self)@,
            !old(self)@.contains_key(session@.token_hash) ==> r is Ok && final(self)@ == old(self)@.insert(session@.token_hash, session@),
    {
        match self.position_of(session.token_hash()) {
            Some(i) => {
                proof {
                    lemma_index_map_dom(self.records(), session_key(), session@.token_hash);
                    assert(session_key()(self.records()[i as int]) == session@.token_hash);
                }
                return Err(SessionRepositoryError::TokenHashAlreadyExists);
            },
            None => {},
        }
        let ghost before = self.records();
        self.sessions.push(session.clone());
        proof {
            assert(self.records() =~= before.push(session@));
            lemma_keys_unique_push(before, session_key(), session@);
            assert(before.push(session@).drop_last() =~= before);
        }
        Ok(())
    }

    /// The session with this token hash, if one is stored.
    pub fn find_by_token_hash(&self, token_hash: &SessionTokenHash) -> (r: Result<
        Option<Session>,
        SessionRepositoryError,
    >)
        requires
            self.wf(),
        ensures
            r matches Ok(found) && match found {
                Some(s) => self@.contains_key(token_hash@) && s@ == self@[token_hash@],
                None => !self@.contains_key(token_hash@),
            },
    {
        match self.position_of(token_hash) {
            Some(i) => {
                proof {
                    lemma_index_map_value(self.records(), session_key(), i as int);
                }
                Ok(Some(self.sessions[i].clone()))
            },
            None => Ok(None),
        }
    }

    /// Deletes the session with this token hash; deleting a session that does
    /// not exist succeeds too.
    pub fn delete_by_token_hash(&mut self, token_hash: &SessionTokenHash) -> (r: Result<
        (),
        SessionRepositoryError,
    >)
        requires
            old(self).wf(),
        ensures
            final(self).wf(),
            r is Ok,
            final(self)@ == old(self)@.remove(token_hash@),
    {
        match self.position_of(token_hash) {
            Some(i) => {
                let ghost before = self.records();
                self.sessions.remove(i);
                proof {
                    assert(self.records() =~= before.remove(i as int));
                    lemma_index_map_remove(before, session_key(), i as int);
                }
            },
            None => {
                assert(self@.remove(token_hash@) =~= self@);
            },
        }
        Ok(())
    }
}

/// After a session is stored it is found by its token hash, and a further
/// session with the same token hash is refused; after it is deleted it is no
/// longer found.
pub proof fn lemma_session_read_after_write(sessions: Map<Seq<char>, SessionView>, session: SessionView)
    ensures
        sessions.insert(session.token_hash, session).contains_key(session.token_hash),
        sessions.insert(session.token_hash, session)[session.token_hash] == session,
        !sessions.insert(session.token_hash, session).remove(session.token_hash).contains_key(
            session.token_hash,
        ),
{
}

} // verus!
