//! The accounts use cases. Each service is written as the decisions it takes
//! between the calls it makes to stores: a caller performs each store call
//! and hands the answer to the next step. Against in-memory stores,
//! `execute` runs the whole use case.
use vstd::prelude::*;
use crate::accounts::domain::{
    display_name_outcome, email_outcome, DisplayName, DisplayNameError, Email, EmailError,
    PasswordHash, Session, SessionToken, SessionTokenHash, SessionView, User, UserId, UserView,
};
use crate::accounts::ports::{
    hash_result_view, PasswordHasher, PasswordHasherError, SessionRepositoryError, SessionTokenHasher,
    UserRepositoryError,
};
use crate::accounts::adapters::{argon2_may_hash, argon2_verify_outcome};
use crate::accounts::in_memory::{email_taken, InMemorySessionRepository, InMemoryUserRepository};
use crate::shared::{is_drawn_uuid, is_random_uuid, lookup_view, InternalError};
use crate::time::Timestamp;

verus! {

// --------------------------------------------------------------- registration

pub struct RegisterUserCommand {
    pub email: String,
    pub display_name: String,
    pub password: String,
}

#[derive(Debug, Clone, Copy, PartialEq, Eq, Structural)]
pub enum RegisterUserError {
    InvalidEmail,
    InvalidDisplayName,
    EmailAlreadyExists,
    PasswordHashingFailed,
    RandomSourceFailed,
    RepositoryFailed,
}

/// The error that validating a registration with this email address and
/// display name gives, if any.
pub open spec fn registration_check(email: Seq<char>, display_name: Seq<char>) -> Option<RegisterUserError> {
    if email_outcome(email) is Err {
        Some(RegisterUserError::InvalidEmail)
    } else if display_name_outcome(display_name) is Err {
        Some(RegisterUserError::InvalidDisplayName)
    } else {
        None
    }
}

/// What registering answers once the new user has been handed to the store.
pub open spec fn registration_stored_outcome(user_id: UserId, inserted: Result<(), UserRepositoryError>) -> Result<
    UserId,
    RegisterUserError,
> {
    match inserted {
        Ok(()) => Ok(user_id),
        Err(UserRepositoryError::EmailAlreadyExists) => Err(RegisterUserError::EmailAlreadyExists),
        Err(_) => Err(RegisterUserError::RepositoryFailed),
    }
}

/// Registers users: validates the email address and display name, hashes the
/// password, and stores the new user under a fresh identifier.
pub struct RegisterUserService<R, H> {
    user_repository: R,
    password_hasher: H,
}

impl<R, H> RegisterUserService<R, H> {
    pub fn new(user_repository: R, password_hasher: H) -> (r: RegisterUserService<R, H>)
        ensures
            r.user_repository() == user_repository,
            r.password_hasher() == password_hasher,
    {
        RegisterUserService { user_repository, password_hasher }
    }

    pub closed spec fn user_repository(&self) -> R {
        self.user_repository
    }

    pub closed spec fn password_hasher(&self) -> H {
        self.password_hasher
    }

    /// The store that the new user is to be handed to.
    pub fn repository(&self) -> (r: &R)
        ensures
            *r == self.user_repository(),
    {
        &self.user_repository
    }

    /// Parses the email address and display name of a registration.
    pub fn validate(&self, command: &RegisterUserCommand) -> (r: Result<(Email, DisplayName), RegisterUserError>)
        ensures
            match registration_check(command.email@, command.display_name@) {
                Some(e) => r == Err::<(Email, DisplayName), RegisterUserError>(e),
                None => r matches Ok((email, name)) && email_outcome(command.email@) == Ok::<
                    Seq<char>,
                    EmailError,
                >(email@) && display_name_outcome(command.display_name@) == Ok::<
                    Seq<char>,
                    DisplayNameError,
                >(name@),
            },
    {
        let email = match Email::parse(command.email.as_str()) {
            Ok(email) => email,
            Err(_) => return Err(RegisterUserError::InvalidEmail),
        };
        let display_name = match DisplayName::parse(command.display_name.as_str()) {
            Ok(name) => name,
            Err(_) => return Err(RegisterUserError::InvalidDisplayName),
        };
        Ok((email, display_name))
    }

    /// Builds the user to store from the parsed registration, the identifier
    /// chosen for it and what the password hasher answered.
    pub fn build_user(
        &self,
        id: UserId,
        email: Email,
        display_name: DisplayName,
        hashed: Result<PasswordHash, PasswordHasherError>,
    ) -> (r: Result<User, RegisterUserError>)
        ensures
            match hashed {
                Ok(hash) => r matches Ok(user) && user@ == (UserView {
                    id,
                    email: email@,
                    display_name: display_name@,
                    password_hash: hash@,
                }),
                Err(_) => r == Err::<User, RegisterUserError>(
                    RegisterUserError::PasswordHashingFailed,
                ),
            },
    {
        match hashed {
            Ok(hash) => Ok(User::new(id, email, display_name, hash)),
            Err(_) => Err(RegisterUserError::PasswordHashingFailed),
        }
    }

    /// What registering answers once the new user has been handed to the
    /// store.
    pub fn complete(&self, user_id: UserId, inserted: Result<(), UserRepositoryError>) -> (r: Result<
        UserId,
        RegisterUserError,
    >)
        ensures
            r == registration_stored_outcome(user_id, inserted),
    {
        match inserted {
            Ok(()) => Ok(user_id),
            Err(UserRepositoryError::EmailAlreadyExists) => Err(RegisterUserError::EmailAlreadyExists),
            Err(_) => Err(RegisterUserError::RepositoryFailed),
        }
    }
}

/// Whether `user` is the user that registering with the valid email
/// address `email` and display name `display_name` builds, where hashing
/// the password gave `hash`.
pub open spec fn is_registered_user(user: UserView, email: Seq<char>, display_name: Seq<char>, hash: Seq<char>) -> bool {
    &&& user.email == email
    &&& user.display_name == display_name
    &&& user.password_hash == hash
    &&& is_random_uuid(user.id.value())
    &&& is_drawn_uuid(user.id.value())
}

/// What registering answers (`r`) and leaves in a user store with state
/// `before` (`after` afterwards), for the valid email address `email` and
/// display name `display_name`, where hashing the password answered
/// `hashed`.
pub open spec fn registration_effect(
    before: Map<u128, UserView>,
    after: Map<u128, UserView>,
    email: Seq<char>,
    display_name: Seq<char>,
    hashed: Result<Seq<char>, PasswordHasherError>,
    r: Result<UserId, RegisterUserError>,
) -> bool {
    match hashed {
        Err(_) => r == Err::<UserId, RegisterUserError>(RegisterUserError::PasswordHashingFailed)
            && after == before,
        Ok(hash) => (r == Err::<UserId, RegisterUserError>(RegisterUserError::RandomSourceFailed)
            && after == before) || if email_taken(before, email) {
            r == Err::<UserId, RegisterUserError>(RegisterUserError::EmailAlreadyExists) && after
                == before
        } else {
            r matches Ok(id) && is_random_uuid(id.value()) && is_drawn_uuid(id.value()) && after
                == before.insert(
                id.value(),
                UserView { id, email, display_name, password_hash: hash },
            )
        },
    }
}

impl<R, H: PasswordHasher> RegisterUserService<R, H> {
    /// Validates the registration, hashes its password with the service's
    /// hasher and builds the user to store under a fresh identifier.
    pub fn prepare(&self, command: &RegisterUserCommand) -> (r: Result<User, RegisterUserError>)
        ensures
            match registration_check(command.email@, command.display_name@) {
                Some(e) => r == Err::<User, RegisterUserError>(e),
                None => exists|hashed: Result<Seq<char>, PasswordHasherError>|
                    {
                        &&& #[trigger] self.password_hasher().may_hash(command.password@, hashed)
                        &&& match hashed {
                            Ok(hash) => r == Err::<User, RegisterUserError>(
                                RegisterUserError::RandomSourceFailed,
                            ) || (r matches Ok(user) && is_registered_user(
                                user@,
                                email_outcome(command.email@)->Ok_0,
                                display_name_outcome(command.display_name@)->Ok_0,
                                hash,
                            )),
                            Err(_) => r == Err::<User, RegisterUserError>(
                                RegisterUserError::PasswordHashingFailed,
                            ),
                        }
                    },
            },
    {
        let (email, display_name) = self.validate(command)?;
        let hashed = self.password_hasher.hash(command.password.as_str());
        if hashed.is_err() {
            proof {
                assert(self.password_hasher().may_hash(command.password@, hash_result_view(hashed)));
            }
            return Err(RegisterUserError::PasswordHashingFailed);
        }
        let id = match UserId::new() {
            Ok(id) => id,
            Err(_) => {
                proof {
                    assert(self.password_hasher().may_hash(command.password@, hash_result_view(hashed)));
                }
                return Err(RegisterUserError::RandomSourceFailed);
            },
        };
        let r = self.build_user(id, email, display_name, hashed);
        proof {
            assert(self.password_hasher().may_hash(command.password@, hash_result_view(hashed)));
        }
        r
    }
}

impl<H: PasswordHasher> RegisterUserService<InMemoryUserRepository, H> {
    /// Registers the user that `command` describes under a fresh identifier.
    pub fn execute(&mut self, command: RegisterUserCommand) -> (r: Result<UserId, RegisterUserError>)
        requires
            old(self).user_repository().wf(),
        ensures
            final(self).user_repository().wf(),
            final(self).password_hasher() == old(self).password_hasher(),
            match registration_check(command.email@, command.display_name@) {
                Some(e) => r == Err::<UserId, RegisterUserError>(e) && final(self).user_repository()@
                    == old(self).user_repository()@,
                None => exists|hashed: Result<Seq<char>, PasswordHasherError>|
                    {
                        &&& #[trigger] old(self).password_hasher().may_hash(command.password@, hashed)
                        &&& registration_effect(
                            old(self).user_repository()@,
                            final(self).user_repository()@,
                            email_outcome(command.email@)->Ok_0,
                            display_name_outcome(command.display_name@)->Ok_0,
                            hashed,
                            r,
                        )
                    },
            },
    {
        let ghost before = self.user_repository()@;
        let user = match self.prepare(&command) {
            Ok(user) => user,
            Err(e) => return Err(e),
        };
        let id = user.id();
        let inserted = self.user_repository.insert(&user);
        let r = self.complete(id, inserted);
        proof {
            assert(old(self).password_hasher().may_hash(command.password@, Ok(user@.password_hash)));
            if !email_taken(before, user@.email) {
                assert(user@ == UserView {
                    id,
                    email: user@.email,
                    display_name: user@.display_name,
                    password_hash: user@.password_hash,
                });
            }
        }
        r
    }
}

/// A registration that succeeds stores exactly one new user, under an
/// identifier drawn from the random source: it holds the registration's
/// email address, display name and the hash that the hasher gave; the
/// address was free before and is taken afterwards; every user filed under
/// another identifier is kept as it was.
pub proof fn lemma_registration_adds_one_drawn_user(
    before: Map<u128, UserView>,
    after: Map<u128, UserView>,
    email: Seq<char>,
    display_name: Seq<char>,
    hashed: Result<Seq<char>, PasswordHasherError>,
    id: UserId,
    k: u128,
)
    requires
        registration_effect(before, after, email, display_name, hashed, Ok(id)),
    ensures
        is_drawn_uuid(id.value()),
        hashed is Ok,
        !email_taken(before, email),
        email_taken(after, email),
        after.contains_key(id.value()),
        after[id.value()] == (UserView { id, email, display_name, password_hash: hashed->Ok_0 }),
        k != id.value() ==> after.contains_key(k) == before.contains_key(k),
        k != id.value() && before.contains_key(k) ==> after[k] == before[k],
{
    assert(after[id.value()].email == email);
}

// ---------------------------------------------------------------------- login

pub struct LoginUserCommand {
    pub email: String,
    pub password: String,
}

#[derive(Debug, Clone, Copy, PartialEq, Eq, Structural)]
pub enum LoginUserError {
    InvalidCredentials,
    Internal(InternalError),
}

/// What logging in answers for an email address, what the store returned for
/// it and what the password check answered (`None` where the check was not
/// made).
pub open spec fn login_outcome(
    email: Seq<char>,
    found: Result<Option<UserView>, UserRepositoryError>,
    verified: Result<bool, PasswordHasherError>,
) -> Result<UserId, LoginUserError> {
    if email_outcome(email) is Err {
        Err(LoginUserError::InvalidCredentials)
    } else {
        match found {
            Err(_) => Err(LoginUserError::Internal(InternalError::Failed)),
            Ok(None) => Err(LoginUserError::InvalidCredentials),
            Ok(Some(user)) => password_check_outcome(user.id, verified),
        }
    }
}

/// What logging in answers once the password check for the user `user_id`
/// has answered `verified`.
pub open spec fn password_check_outcome(user_id: UserId, verified: Result<bool, PasswordHasherError>) -> Result<
    UserId,
    LoginUserError,
> {
    match verified {
        Err(_) => Err(LoginUserError::Internal(InternalError::Failed)),
        Ok(false) => Err(LoginUserError::InvalidCredentials),
        Ok(true) => Ok(user_id),
    }
}

/// Logs users in: finds the user by email address and checks the password
/// against the stored hash. Every wrong address or password gets the same
/// answer.
pub struct LoginUserService<R, H> {
    user_repository: R,
    password_hasher: H,
}

impl<R, H> LoginUserService<R, H> {
    pub fn new(user_repository: R, password_hasher: H) -> (r: LoginUserService<R, H>)
        ensures
            r.user_repository() == user_repository,
            r.password_hasher() == password_hasher,
    {
        LoginUserService { user_repository, password_hasher }
    }

    pub closed spec fn user_repository(&self) -> R {
        self.user_repository
    }

    pub closed spec fn password_hasher(&self) -> H {
        self.password_hasher
    }

    /// The store to look the user up in.
    pub fn repository(&self) -> (r: &R)
        ensures
            *r == self.user_repository(),
    {
        &self.user_repository
    }

    /// First step: the email address to look up.
    pub fn start(&self, command: &LoginUserCommand) -> (r: Result<Email, LoginUserError>)
        ensures
            match r {
                Ok(email) => email_outcome(command.email@) == Ok::<Seq<char>, EmailError>(email@),
                Err(e) => email_outcome(command.email@) is Err && e
                    == LoginUserError::InvalidCredentials,
            },
    {
        match Email::parse(command.email.as_str()) {
            Ok(email) => Ok(email),
            Err(_) => Err(LoginUserError::InvalidCredentials),
        }
    }

    /// Second step: what the store returned for the email address; gives the
    /// user whose password is to be checked.
    pub fn on_user_found(&self, found: Result<Option<User>, UserRepositoryError>) -> (r: Result<
        User,
        LoginUserError,
    >)
        ensures
            match found {
                Err(_) => r == Err::<User, LoginUserError>(
                    LoginUserError::Internal(InternalError::Failed),
                ),
                Ok(None) => r == Err::<User, LoginUserError>(LoginUserError::InvalidCredentials),
                Ok(Some(user)) => r == Ok::<User, LoginUserError>(user),
            },
    {
        match found {
            Err(_) => Err(LoginUserError::Internal(InternalError::Failed)),
            Ok(None) => Err(LoginUserError::InvalidCredentials),
            Ok(Some(user)) => Ok(user),
        }
    }

    /// Last step: what the password check answered for the user.
    pub fn on_password_checked(&self, user_id: UserId, verified: Result<bool, PasswordHasherError>) -> (r:
        Result<UserId, LoginUserError>)
        ensures
            r == password_check_outcome(user_id, verified),
    {
        match verified {
            Err(_) => Err(LoginUserError::Internal(InternalError::Failed)),
            Ok(false) => Err(LoginUserError::InvalidCredentials),
            Ok(true) => Ok(user_id),
        }
    }
}

impl<R, H: PasswordHasher> LoginUserService<R, H> {
    /// Checks `password` against the user's stored hash with the service's
    /// hasher. Only a confirmed match logs the user in.
    pub fn check_password(&self, user: &User, password: &str) -> (r: Result<UserId, LoginUserError>)
        ensures
            r == password_check_outcome(
                user@.id,
                self.password_hasher().verify_outcome(password@, user@.password_hash),
            ),
    {
        let verified = self.password_hasher.verify(password, user.password_hash());
        self.on_password_checked(user.id(), verified)
    }
}

impl<H: PasswordHasher> LoginUserService<InMemoryUserRepository, H> {
    /// The identifier of the user whom `command` logs in. The answer rests
    /// on the user that the store holds under the email address and on what
    /// the hasher answers for the password.
    pub fn execute(&self, command: LoginUserCommand) -> (r: Result<UserId, LoginUserError>)
        requires
            self.user_repository().wf(),
        ensures
            match email_outcome(command.email@) {
                Err(_) => r == Err::<UserId, LoginUserError>(LoginUserError::InvalidCredentials),
                Ok(email) => if email_taken(self.user_repository()@, email) {
                    exists|user: UserView|
                        {
                            &&& self.user_repository()@.contains_key(user.id.value())
                            &&& self.user_repository()@[user.id.value()] == user
                            &&& user.email == email
                            &&& r == #[trigger] login_outcome(
                                command.email@,
                                Ok(Some(user)),
                                self.password_hasher().verify_outcome(
                                    command.password@,
                                    user.password_hash,
                                ),
                            )
                        }
                } else {
                    r == Err::<UserId, LoginUserError>(LoginUserError::InvalidCredentials)
                },
            },
    {
        let email = self.start(&command)?;
        let found = self.user_repository.find_by_email(&email);
        let user = self.on_user_found(found)?;
        let verified = self.password_hasher.verify(command.password.as_str(), user.password_hash());
        let r = self.on_password_checked(user.id(), verified);
        proof {
            assert(self.user_repository()@[user@.id.value()].email == email@);
            assert(r == login_outcome(
                command.email@,
                Ok(Some(user@)),
                self.password_hasher().verify_outcome(command.password@, user@.password_hash),
            ));
        }
        r
    }
}

/// Logging in succeeds only for a well-formed email address, with the user
/// that the store found under it, after the password check confirmed the
/// password; then it answers that user's identifier.
pub proof fn lemma_login_requires_confirmed_password(
    email: Seq<char>,
    found: Result<Option<UserView>, UserRepositoryError>,
    verified: Result<bool, PasswordHasherError>,
)
    ensures
        login_outcome(email, found, verified) is Ok ==> {
            &&& email_outcome(email) is Ok
            &&& verified == Ok::<bool, PasswordHasherError>(true)
            &&& (found matches Ok(Some(user)) && login_outcome(email, found, verified) == Ok::<
                UserId,
                LoginUserError,
            >(user.id))
        },
{
}

/// With the Argon2 hasher, a user stored with a hash that hashing their
/// password may give logs in with that password and a well-formed email
/// address: the answer is the user's identifier.
pub proof fn lemma_registered_password_logs_in(email: Seq<char>, user: UserView, password: Seq<char>)
    requires
        email_outcome(email) is Ok,
        argon2_may_hash(password, Ok(user.password_hash)),
    ensures
        login_outcome(email, Ok(Some(user)), argon2_verify_outcome(password, user.password_hash))
            == Ok::<UserId, LoginUserError>(user.id),
{
}

// ------------------------------------------------------------- authentication

pub struct AuthenticateSessionCommand {
    pub token: SessionToken,
}

#[derive(Debug, Clone, Copy, PartialEq, Eq, Structural)]
pub struct AuthenticatedUser {
    pub user_id: UserId,
}

#[derive(Debug, Clone, Copy, PartialEq, Eq, Structural)]
pub enum AuthenticateSessionError {
    InvalidSession,
    SessionExpired,
    RepositoryFailed,
}

/// What authenticating answers at time `now`, given what the store returned
/// for the token's hash.
pub open spec fn authentication_outcome(
    found: Result<Option<SessionView>, SessionRepositoryError>,
    now: Timestamp,
) -> Result<AuthenticatedUser, AuthenticateSessionError> {
    match found {
        Err(_) => Err(AuthenticateSessionError::RepositoryFailed),
        Ok(None) => Err(AuthenticateSessionError::InvalidSession),
        Ok(Some(session)) => if !now.precedes(session.expires_at) {
            Err(AuthenticateSessionError::SessionExpired)
        } else {
            Ok(AuthenticatedUser { user_id: session.user_id })
        },
    }
}

/// Authenticates a session token: hashes it, looks the session up by the
/// hash and refuses expired sessions.
pub struct AuthenticateSessionService<R, H> {
    session_repository: R,
    token_hasher: H,
}

impl<R, H> AuthenticateSessionService<R, H> {
    pub fn new(session_repository: R, token_hasher: H) -> (r: AuthenticateSessionService<R, H>)
        ensures
            r.session_repository() == session_repository,
            r.token_hasher() == token_hasher,
    {
        AuthenticateSessionService { session_repository, token_hasher }
    }

    pub closed spec fn session_repository(&self) -> R {
        self.session_repository
    }

    pub closed spec fn token_hasher(&self) -> H {
        self.token_hasher
    }

    /// The store to look the session up in.
    pub fn repository(&self) -> (r: &R)
        ensures
            *r == self.session_repository(),
    {
        &self.session_repository
    }

    /// Last step at time `now`: what the store returned for the token's hash.
    pub fn on_session_found_at(
        &self,
        found: Result<Option<Session>, SessionRepositoryError>,
        now: Timestamp,
    ) -> (r: Result<AuthenticatedUser, AuthenticateSessionError>)
        ensures
            r == authentication_outcome(lookup_view(found), now),
    {
        let session = match found {
            Err(_) => return Err(AuthenticateSessionError::RepositoryFailed),
            Ok(None) => return Err(AuthenticateSessionError::InvalidSession),
            Ok(Some(session)) => session,
        };
        if session.is_expired_at(now) {
            return Err(AuthenticateSessionError::SessionExpired);
        }
        Ok(AuthenticatedUser { user_id: session.user_id() })
    }

    /// Last step: what the store returned for the token's hash, judged at the
    /// current time.
    pub fn on_session_found(&self, found: Result<Option<Session>, SessionRepositoryError>) -> (r: Result<
        AuthenticatedUser,
        AuthenticateSessionError,
    >)
        ensures
            exists|now: Timestamp| r == #[trigger] authentication_outcome(lookup_view(found), now),
    {
        let now = Timestamp::now();
        self.on_session_found_at(found, now)
    }
}

impl<R, H: SessionTokenHasher> AuthenticateSessionService<R, H> {
    /// First step: the hash under which the token's session is stored.
    pub fn token_hash(&self, command: &AuthenticateSessionCommand) -> (r: SessionTokenHash)
        ensures
            r@ == self.token_hasher().hash_of(command.token@),
    {
        self.token_hasher.hash(&command.token)
    }
}

/// What an in-memory session store with state `sessions` returns for the
/// token hash `token_hash`.
pub open spec fn stored_session(sessions: Map<Seq<char>, SessionView>, token_hash: Seq<char>) -> Result<
    Option<SessionView>,
    SessionRepositoryError,
> {
    if sessions.contains_key(token_hash) {
        Ok(Some(sessions[token_hash]))
    } else {
        Ok(None)
    }
}

impl<H: SessionTokenHasher> AuthenticateSessionService<InMemorySessionRepository, H> {
    /// The user whose session `command.token` opens, judged at the current
    /// time.
    pub fn execute(&self, command: AuthenticateSessionCommand) -> (r: Result<
        AuthenticatedUser,
        AuthenticateSessionError,
    >)
        requires
            self.session_repository().wf(),
        ensures
            exists|now: Timestamp|
                r == #[trigger] authentication_outcome(
                    stored_session(
                        self.session_repository()@,
                        self.token_hasher().hash_of(command.token@),
                    ),
                    now,
                ),
    {
        let token_hash = self.token_hash(&command);
        let found = self.session_repository.find_by_token_hash(&token_hash);
        self.on_session_found(found)
    }
}

/// A session stored under the hash of a token is found again by that hash,
/// and authenticates its user until it expires: before its expiry the answer
/// is the session's user, from its expiry on it is `SessionExpired`.
pub proof fn lemma_stored_session_authenticates(
    sessions: Map<Seq<char>, SessionView>,
    session: SessionView,
    now: Timestamp,
)
    ensures
        authentication_outcome(
            stored_session(sessions.insert(session.token_hash, session), session.token_hash),
            now,
        ) == if now.precedes(session.expires_at) {
            Ok::<AuthenticatedUser, AuthenticateSessionError>(
                AuthenticatedUser { user_id: session.user_id },
            )
        } else {
            Err::<AuthenticatedUser, AuthenticateSessionError>(
                AuthenticateSessionError::SessionExpired,
            )
        },
{
}

/// A deleted session no longer authenticates anyone.
pub proof fn lemma_deleted_session_is_invalid(
    sessions: Map<Seq<char>, SessionView>,
    token_hash: Seq<char>,
    now: Timestamp,
)
    ensures
        authentication_outcome(stored_session(sessions.remove(token_hash), token_hash), now)
            == Err::<AuthenticatedUser, AuthenticateSessionError>(
            AuthenticateSessionError::InvalidSession,
        ),
{
}

} // verus!
