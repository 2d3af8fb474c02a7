//! Users and sessions as a database keeps them: rows of plain values, read
//! back into the domain under the same checks as new values, and the
//! database's refusals told apart by the constraint that refused them.
use vstd::prelude::*;
use crate::accounts::domain::{
    display_name_outcome, email_outcome, DisplayName, Email, PasswordHash, Session, SessionId,
    SessionTokenHash, SessionView, User, UserId, UserView,
};
use crate::accounts::ports::{
    session_persistence_error, user_persistence_error, SessionRepositoryError, UserRepositoryError,
};
use crate::shared::{names_constraint, PersistenceError};
use crate::text::{is_blank, str_equals};
use crate::time::Timestamp;

verus! {

/// The unique constraint on the email addresses of users.
pub const USERS_EMAIL_UNIQUE_CONSTRAINT: &'static str = "users_email_unique";

/// The unique constraint on the token hashes of sessions.
pub const SESSIONS_TOKEN_HASH_UNIQUE_CONSTRAINT: &'static str = "sessions_token_hash_unique";

/// A row of the users table.
pub struct UserRow {
    pub id: u128,
    pub email: String,
    pub display_name: String,
    pub password_hash: String,
}

/// A row of the sessions table.
pub struct SessionRow {
    pub id: u128,
    pub user_id: u128,
    pub token_hash: String,
    pub expires_at: Timestamp,
    pub created_at: Timestamp,
}

/// The user that a row holds, or `None` where the row breaks a rule of
/// users: an email address, display name or password hash that a new user
/// could not have.
pub open spec fn user_from_row(id: u128, email: Seq<char>, display_name: Seq<char>, password_hash: Seq<char>) -> Option<UserView> {
    match (email_outcome(email), display_name_outcome(display_name)) {
        (Ok(email), Ok(display_name)) => if is_blank(password_hash) {
            None
        } else {
            Some(UserView { id: UserId::from_value(id), email, display_name, password_hash })
        },
        _ => None,
    }
}

/// The session that a row holds, or `None` where the row breaks a rule of
/// sessions: a blank token hash, or an expiry that is not after the creation.
pub open spec fn session_from_row(
    id: u128,
    user_id: u128,
    token_hash: Seq<char>,
    expires_at: Timestamp,
    created_at: Timestamp,
) -> Option<SessionView> {
    if is_blank(token_hash) || !created_at.precedes(expires_at) {
        None
    } else {
        Some(
            SessionView {
                id: SessionId::from_value(id),
                user_id: UserId::from_value(user_id),
                token_hash,
                expires_at,
                created_at,
            },
        )
    }
}

impl User {
    /// Reads a user back from its row; a row that breaks a rule of users is
    /// `InvalidStoredData`.
    pub fn from_row(row: UserRow) -> (r: Result<User, UserRepositoryError>)
        ensures
            match user_from_row(row.id, row.email@, row.display_name@, row.password_hash@) {
                Some(v) => r matches Ok(u) && u@ == v,
                None => r == Err::<User, UserRepositoryError>(UserRepositoryError::InvalidStoredData),
            },
    {
        let id = UserId::from_uuid(row.id);
        let email = match Email::parse(row.email.as_str()) {
            Ok(email) => email,
            Err(_) => return Err(UserRepositoryError::InvalidStoredData),
        };
        let display_name = match DisplayName::parse(row.display_name.as_str()) {
            Ok(name) => name,
            Err(_) => return Err(UserRepositoryError::InvalidStoredData),
        };
        let password_hash = match PasswordHash::from_encoded(row.password_hash.as_str()) {
            Ok(hash) => hash,
            Err(_) => return Err(UserRepositoryError::InvalidStoredData),
        };
        Ok(User::new(id, email, display_name, password_hash))
    }
}

impl Session {
    /// Reads a session back from its row; a row that breaks a rule of
    /// sessions is `InvalidStoredData`.
    pub fn from_row(row: SessionRow) -> (r: Result<Session, SessionRepositoryError>)
        ensures
            match session_from_row(row.id, row.user_id, row.token_hash@, row.expires_at, row.created_at) {
                Some(v) => r matches Ok(s) && s@ == v,
                None => r == Err::<Session, SessionRepositoryError>(
                    SessionRepositoryError::InvalidStoredData,
                ),
            },
    {
        let token_hash = match SessionTokenHash::from_encoded(row.token_hash.as_str()) {
            Ok(hash) => hash,
            Err(_) => return Err(SessionRepositoryError::InvalidStoredData),
        };
        match Session::new(
            SessionId::from_uuid(row.id),
            UserId::from_uuid(row.user_id),
            token_hash,
            row.expires_at,
            row.created_at,
        ) {
            Ok(session) => Ok(session),
            Err(_) => Err(SessionRepositoryError::InvalidStoredData),
        }
    }
}

/// How a refused insertion of a user is reported: a unique violation of
/// the email constraint is `EmailAlreadyExists`, anything else is the
/// persistence failure `otherwise`.
pub fn user_insert_error(
    unique_violation: bool,
    constraint: Option<&str>,
    otherwise: PersistenceError,
) -> (r: UserRepositoryError)
    ensures
        r == if unique_violation && names_constraint(constraint, USERS_EMAIL_UNIQUE_CONSTRAINT) {
            UserRepositoryError::EmailAlreadyExists
        } else {
            user_persistence_error(otherwise)
        },
{
    if unique_violation {
        match constraint {
            Some(c) => {
                if str_equals(c, USERS_EMAIL_UNIQUE_CONSTRAINT) {
                    return UserRepositoryError::EmailAlreadyExists;
                }
            },
            None => {},
        }
    }
    UserRepositoryError::from(otherwise)
}

/// How a refused insertion of a session is reported: a unique violation of
/// the token-hash constraint is `TokenHashAlreadyExists`, anything else is
/// the persistence failure `otherwise`.
pub fn session_insert_error(
    unique_violation: bool,
    constraint: Option<&str>,
    otherwise: PersistenceError,
) -> (r: SessionRepositoryError)
    ensures
        r == if unique_violation && names_constraint(
            constraint,
            SESSIONS_TOKEN_HASH_UNIQUE_CONSTRAINT,
        ) {
            SessionRepositoryError::TokenHashAlreadyExists
        } else {
            session_persistence_error(otherwise)
        },
{
    if unique_violation {
        match constraint {
            Some(c) => {
                if str_equals(c, SESSIONS_TOKEN_HASH_UNIQUE_CONSTRAINT) {
                    return SessionRepositoryError::TokenHashAlreadyExists;
                }
            },
            None => {},
        }
    }
    SessionRepositoryError::from(otherwise)
}

} // verus!
