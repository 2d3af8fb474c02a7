//! What the accounts services need from the outside: stores, hashers and a
//! token source, and the errors they report.
use vstd::prelude::*;
use crate::accounts::domain::{PasswordHash, SessionToken, SessionTokenHash};
use crate::shared::PersistenceError;

verus! {

#[derive(Debug, Clone, Copy, PartialEq, Eq, Structural)]
pub enum PasswordHasherError {
    HashFailed,
    VerifyFailed,
}

/// The encoded hash that a hashing call answered, or its error.
pub open spec fn hash_result_view(r: Result<PasswordHash, PasswordHasherError>) -> Result<
    Seq<char>,
    PasswordHasherError,
> {
    match r {
        Ok(h) => Ok(h@),
        Err(e) => Err(e),
    }
}

/// Turns passwords into stored hashes and checks passwords against them.
pub trait PasswordHasher {
    /// Whether hashing `password` may answer `outcome`: the encoded hash, or
    /// the error. A hasher that salts at random has many hashes for one
    /// password.
    spec fn may_hash(&self, password: Seq<char>, outcome: Result<Seq<char>, PasswordHasherError>) -> bool;

    /// What checking `password` against the encoded hash `hash` answers.
    spec fn verify_outcome(&self, password: Seq<char>, hash: Seq<char>) -> Result<bool, PasswordHasherError>;

    /// Hashes `password`.
    fn hash(&self, password: &str) -> (r: Result<PasswordHash, PasswordHasherError>)
        ensures
            self.may_hash(password@, hash_result_view(r)),
    ;

    /// Checks `password` against the encoded hash `hash`.
    fn verify(&self, password: &str, hash: &PasswordHash) -> (r: Result<bool, PasswordHasherError>)
        ensures
            r == self.verify_outcome(password@, hash@),
    ;
}

#[derive(Debug, Clone, Copy, PartialEq, Eq, Structural)]
pub enum SessionTokenGeneratorError {
    GenerationFailed,
}

/// Generates session tokens: opaque credentials handed to clients.
pub trait SessionTokenGenerator {
    fn generate(&self) -> Result<SessionToken, SessionTokenGeneratorError>;
}

/// Produces the persistent form of session tokens. The same token always
/// produces the same hash.
pub trait SessionTokenHasher {
    /// The hash that this hasher computes for the token `token`.
    spec fn hash_of(&self, token: Seq<char>) -> Seq<char>;

    fn hash(&self, token: &SessionToken) -> (r: SessionTokenHash)
        ensures
            r@ == self.hash_of(token@),
    ;
}

/// A hasher gives equal tokens equal hashes, so a session filed under the
/// hash of its token is found again by hashing the same token.
pub proof fn lemma_token_hash_is_deterministic<H: SessionTokenHasher>(
    hasher: H,
    first: Seq<char>,
    second: Seq<char>,
)
    requires
        first == second,
    ensures
        hasher.hash_of(first) == hasher.hash_of(second),
{
}

#[derive(Debug, Clone, Copy, PartialEq, Eq, Structural)]
pub enum SessionRepositoryError {
    Database,
    InvalidStoredData,
    Unavailable,
    TokenHashAlreadyExists,
}

#[derive(Debug, Clone, Copy, PartialEq, Eq, Structural)]
pub enum UserRepositoryError {
    EmailAlreadyExists,
    Database,
    InvalidStoredData,
    Unavailable,
}

/// How a session store reports a persistence failure: an unreachable
/// database as `Unavailable`, every other failure as `Database`.
pub open spec fn session_persistence_error(error: PersistenceError) -> SessionRepositoryError {
    match error {
        PersistenceError::Unavailable => SessionRepositoryError::Unavailable,
        PersistenceError::Failed => SessionRepositoryError::Database,
    }
}

/// How a user store reports a persistence failure: an unreachable database
/// as `Unavailable`, every other failure as `Database`.
pub open spec fn user_persistence_error(error: PersistenceError) -> UserRepositoryError {
    match error {
        PersistenceError::Unavailable => UserRepositoryError::Unavailable,
        PersistenceError::Failed => UserRepositoryError::Database,
    }
}

impl From<PersistenceError> for SessionRepositoryError {
    fn from(error: PersistenceError) -> (r: SessionRepositoryError) {
        match error {
            PersistenceError::Unavailable => SessionRepositoryError::Unavailable,
            PersistenceError::Failed => SessionRepositoryError::Database,
        }
    }
}

impl vstd::std_specs::convert::FromSpecImpl<PersistenceError> for SessionRepositoryError {
    open spec fn obeys_from_spec() -> bool {
        true
    }

    open spec fn from_spec(error: PersistenceError) -> SessionRepositoryError {
        session_persistence_error(error)
    }
}

impl From<PersistenceError> for UserRepositoryError {
    fn from(error: PersistenceError) -> (r: UserRepositoryError) {
        match error {
            PersistenceError::Unavailable => UserRepositoryError::Unavailable,
            PersistenceError::Failed => UserRepositoryError::Database,
        }
    }
}

impl vstd::std_specs::convert::FromSpecImpl<PersistenceError> for UserRepositoryError {
    open spec fn obeys_from_spec() -> bool {
        true
    }

    open spec fn from_spec(error: PersistenceError) -> UserRepositoryError {
        user_persistence_error(error)
    }
}

} // verus!
