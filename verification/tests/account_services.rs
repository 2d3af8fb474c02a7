use std::cell::RefCell;
use std::rc::Rc;

use stockmate::accounts::adapters::{
    Argon2PasswordHasher, SecureSessionTokenGenerator, Sha256SessionTokenHasher,
};
use stockmate::accounts::api::CurrentUser;
use stockmate::accounts::application::{
    AuthenticateSessionCommand, AuthenticateSessionError, AuthenticateSessionService,
    AuthenticatedUser, LoginUserCommand, LoginUserError, LoginUserService, RegisterUserCommand,
    RegisterUserError, RegisterUserService,
};
use stockmate::accounts::domain::{
    DisplayName, Email, PasswordHash, Session, SessionId, SessionToken, User, UserId,
};
use stockmate::accounts::in_memory::{InMemorySessionRepository, InMemoryUserRepository};
use stockmate::accounts::ports::{
    PasswordHasher, PasswordHasherError, SessionRepositoryError, SessionTokenHasher,
    UserRepositoryError,
};
use stockmate::accounts::sessions::{
    CreateSessionCommand, CreateSessionError, CreateSessionResult, CreateSessionService,
    SECONDS_PER_DAY,
};
use stockmate::config::{SessionConfig, SessionConfigError};
use stockmate::shared::InternalError;
use stockmate::time::Timestamp;
use vstd::seq::Seq;

const VALID_EMAIL: &str = "valid.email@test.com";
const VALID_PASSWORD: &str = "This is a secret password";
const VALID_NAME: &str = "This is a valid name";

type Users = Rc<RefCell<InMemoryUserRepository>>;
type Sessions = Rc<RefCell<InMemorySessionRepository>>;

fn shifted(t: Timestamp, seconds: i64) -> Timestamp {
    Timestamp::new(t.seconds + seconds, t.nanoseconds)
}

/// A hasher whose every call fails.
struct FailingPasswordHasher;

impl PasswordHasher for FailingPasswordHasher {
    fn may_hash(&self, _password: Seq<char>, outcome: Result<Seq<char>, PasswordHasherError>) -> bool {
        matches!(outcome, Err(PasswordHasherError::HashFailed))
    }

    fn verify_outcome(&self, _password: Seq<char>, _hash: Seq<char>) -> Result<bool, PasswordHasherError> {
        Err(PasswordHasherError::VerifyFailed)
    }

    fn hash(&self, _password: &str) -> Result<PasswordHash, PasswordHasherError> {
        Err(PasswordHasherError::HashFailed)
    }

    fn verify(&self, _password: &str, _hash: &PasswordHash) -> Result<bool, PasswordHasherError> {
        Err(PasswordHasherError::VerifyFailed)
    }
}

// ------------------------------------------------------------- registration

fn register_stepwise<H: PasswordHasher>(
    service: &RegisterUserService<Users, H>,
    command: RegisterUserCommand,
) -> Result<UserId, RegisterUserError> {
    let user = service.prepare(&command)?;
    let id = user.id();
    let inserted = service.repository().borrow_mut().insert(&user);
    service.complete(id, inserted)
}

fn register_command(email: &str, password: &str) -> RegisterUserCommand {
    RegisterUserCommand {
        email: email.to_owned(),
        display_name: VALID_NAME.to_owned(),
        password: password.to_owned(),
    }
}

fn register_service() -> RegisterUserService<InMemoryUserRepository, Argon2PasswordHasher> {
    RegisterUserService::new(InMemoryUserRepository::new(), Argon2PasswordHasher::new())
}

#[test]
fn valid_user_can_be_registered() {
    let mut service = register_service();

    let id = service
        .execute(register_command(VALID_EMAIL, VALID_PASSWORD))
        .expect("Registration should succeed");

    let stored_user = service
        .repository()
        .find_by_id(&id)
        .expect("Repository lookup should succeed")
        .expect("Registered user should exist");

    assert_eq!(id, stored_user.id());
    assert_eq!(VALID_EMAIL, stored_user.email().as_str());
    assert_eq!(VALID_NAME, stored_user.display_name().as_str());
}

#[test]
fn password_is_hashed_before_user_is_stored() {
    let mut service = register_service();
    let hasher = Argon2PasswordHasher::new();

    let id = service
        .execute(register_command(VALID_EMAIL, VALID_PASSWORD))
        .expect("Registration should succeed");

    let stored_user = service
        .repository()
        .find_by_id(&id)
        .expect("Repository lookup should succeed")
        .expect("Registered user should exist");

    let password_matches = hasher
        .verify(VALID_PASSWORD, stored_user.password_hash())
        .expect("Password verification should succeed");

    assert!(password_matches);
    assert!(stored_user.password_hash().as_str() != VALID_PASSWORD);
}

#[test]
fn invalid_email_is_rejected() {
    let mut service = register_service();

    let result = service.execute(register_command("invalid.email-test.com", VALID_PASSWORD));

    assert_eq!(result, Err(RegisterUserError::InvalidEmail));
}

#[test]
fn register_user_duplicate_email_is_rejected() {
    let mut service = register_service();

    service
        .execute(register_command(VALID_EMAIL, VALID_PASSWORD))
        .expect("Registration should succeed");

    let another_user = service.execute(register_command(VALID_EMAIL, VALID_PASSWORD));

    assert_eq!(another_user, Err(RegisterUserError::EmailAlreadyExists));
}

#[test]
fn password_hashing_failure_is_reported() {
    let mut service = RegisterUserService::new(InMemoryUserRepository::new(), FailingPasswordHasher);

    let result = service.execute(register_command(VALID_EMAIL, VALID_PASSWORD));

    assert_eq!(result, Err(RegisterUserError::PasswordHashingFailed));
    assert!(service
        .repository()
        .find_by_email(&Email::parse(VALID_EMAIL).expect("Test email should be valid"))
        .expect("Lookup should succeed")
        .is_none());
}

#[test]
fn invalid_display_name_is_rejected() {
    let mut service = register_service();

    let command = RegisterUserCommand {
        email: VALID_EMAIL.to_owned(),
        display_name: "   ".to_owned(),
        password: VALID_PASSWORD.to_owned(),
    };

    assert_eq!(service.execute(command), Err(RegisterUserError::InvalidDisplayName));
}

#[test]
fn invalid_email_is_reported_before_invalid_display_name() {
    let mut service = register_service();

    let command = RegisterUserCommand {
        email: "no-at-sign".to_owned(),
        display_name: "".to_owned(),
        password: VALID_PASSWORD.to_owned(),
    };

    assert_eq!(service.execute(command), Err(RegisterUserError::InvalidEmail));
}

#[test]
fn registration_stores_the_trimmed_email() {
    let mut service = register_service();

    let id = service
        .execute(register_command("  valid.email@test.com ", VALID_PASSWORD))
        .expect("Registration should succeed");

    let stored_user = service
        .repository()
        .find_by_id(&id)
        .expect("Repository lookup should succeed")
        .expect("Registered user should exist");

    assert_eq!(stored_user.email().as_str(), VALID_EMAIL);
}

#[test]
fn registration_through_a_shared_store_step_by_step() {
    let repository: Users = Rc::new(RefCell::new(InMemoryUserRepository::new()));
    let service = RegisterUserService::new(repository.clone(), Argon2PasswordHasher::new());

    let id = register_stepwise(&service, register_command(VALID_EMAIL, VALID_PASSWORD))
        .expect("Registration should succeed");
    let again = register_stepwise(&service, register_command(VALID_EMAIL, VALID_PASSWORD));

    assert!(repository.borrow().find_by_id(&id).expect("Lookup should succeed").is_some());
    assert_eq!(again, Err(RegisterUserError::EmailAlreadyExists));
}

#[test]
fn store_failure_during_registration_is_reported() {
    let service = register_service();

    assert_eq!(
        service.complete(UserId::new().expect("Random source should be available"), Err(UserRepositoryError::Database)),
        Err(RegisterUserError::RepositoryFailed)
    );
    assert_eq!(
        service.complete(UserId::new().expect("Random source should be available"), Err(UserRepositoryError::EmailAlreadyExists)),
        Err(RegisterUserError::EmailAlreadyExists)
    );
}

// -------------------------------------------------------------------- login

fn login_stepwise<H: PasswordHasher>(
    service: &LoginUserService<Users, H>,
    command: LoginUserCommand,
) -> Result<UserId, LoginUserError> {
    let email = service.start(&command)?;
    let found = service.repository().borrow().find_by_email(&email);
    let user = service.on_user_found(found)?;
    service.check_password(&user, &command.password)
}

fn login_command(email: &str, password: &str) -> LoginUserCommand {
    LoginUserCommand { email: email.to_owned(), password: password.to_owned() }
}

fn create_user(email: &str, display_name: &str, password: &str) -> User {
    User::new(
        UserId::new().expect("Random source should be available"),
        Email::parse(email).expect("Test email should be valid"),
        DisplayName::parse(display_name).expect("Test display name should be valid"),
        Argon2PasswordHasher::new().hash(password).expect("Test password should be hashable"),
    )
}

fn store_with(user: &User) -> InMemoryUserRepository {
    let mut repository = InMemoryUserRepository::new();
    repository.insert(user).expect("User should be insertable");
    repository
}

#[test]
fn correct_credentials_return_user_id() {
    let user = create_user(VALID_EMAIL, VALID_NAME, VALID_PASSWORD);
    let service = LoginUserService::new(store_with(&user), Argon2PasswordHasher::new());

    let verified_user =
        service.execute(login_command(VALID_EMAIL, VALID_PASSWORD)).expect("User should login");

    assert_eq!(verified_user, user.id())
}

#[test]
fn wrong_email_returns_invalid_credentials() {
    let user = create_user(VALID_EMAIL, VALID_NAME, VALID_PASSWORD);
    let service = LoginUserService::new(store_with(&user), Argon2PasswordHasher::new());

    let verified_user = service.execute(login_command("another.valid@email.com", VALID_PASSWORD));

    assert_eq!(verified_user, Err(LoginUserError::InvalidCredentials))
}

#[test]
fn wrong_password_returns_invalid_credentials() {
    let user = create_user(VALID_EMAIL, VALID_NAME, VALID_PASSWORD);
    let service = LoginUserService::new(store_with(&user), Argon2PasswordHasher::new());

    let verified_user = service.execute(login_command(VALID_EMAIL, "Another secret password"));

    assert_eq!(verified_user, Err(LoginUserError::InvalidCredentials))
}

#[test]
fn invalid_email_returns_invalid_credentials() {
    let user = create_user(VALID_EMAIL, VALID_NAME, VALID_PASSWORD);
    let service = LoginUserService::new(store_with(&user), Argon2PasswordHasher::new());

    let verified_user = service.execute(login_command("invalid_email.com", VALID_PASSWORD));

    assert_eq!(verified_user, Err(LoginUserError::InvalidCredentials))
}

#[test]
fn verification_failure_is_reported() {
    let user = create_user(VALID_EMAIL, VALID_NAME, VALID_PASSWORD);
    let service = LoginUserService::new(store_with(&user), FailingPasswordHasher);

    let verified_user = service.execute(login_command(VALID_EMAIL, VALID_PASSWORD));

    assert_eq!(verified_user, Err(LoginUserError::Internal(InternalError::Failed)))
}

#[test]
fn store_failure_during_login_is_internal() {
    let service = LoginUserService::new(InMemoryUserRepository::new(), Argon2PasswordHasher::new());

    assert_eq!(
        service.on_user_found(Err(UserRepositoryError::Unavailable)).err(),
        Some(LoginUserError::Internal(InternalError::Failed))
    );
}

#[test]
fn login_accepts_surrounding_whitespace_in_the_email() {
    let user = create_user(VALID_EMAIL, VALID_NAME, VALID_PASSWORD);
    let service = LoginUserService::new(store_with(&user), Argon2PasswordHasher::new());

    let verified_user = service.execute(login_command("  valid.email@test.com  ", VALID_PASSWORD));

    assert_eq!(verified_user, Ok(user.id()))
}

#[test]
fn registered_user_can_log_in_through_a_shared_store() {
    let repository: Users = Rc::new(RefCell::new(InMemoryUserRepository::new()));
    let registration = RegisterUserService::new(repository.clone(), Argon2PasswordHasher::new());
    let login = LoginUserService::new(repository.clone(), Argon2PasswordHasher::new());

    let id = register_stepwise(&registration, register_command(VALID_EMAIL, VALID_PASSWORD))
        .expect("Registration should succeed");

    assert_eq!(login_stepwise(&login, login_command(VALID_EMAIL, VALID_PASSWORD)), Ok(id));
    assert_eq!(
        login_stepwise(&login, login_command(VALID_EMAIL, "not the password")),
        Err(LoginUserError::InvalidCredentials)
    );
}

// ----------------------------------------------------------- authentication

fn authenticate_stepwise<H: SessionTokenHasher>(
    service: &AuthenticateSessionService<Sessions, H>,
    command: AuthenticateSessionCommand,
) -> Result<AuthenticatedUser, AuthenticateSessionError> {
    let token_hash = service.token_hash(&command);
    let found = service.repository().borrow().find_by_token_hash(&token_hash);
    service.on_session_found(found)
}

fn store_session(
    repository: &mut InMemorySessionRepository,
    user_id: UserId,
    token: &SessionToken,
    created_at: Timestamp,
    expires_at: Timestamp,
) {
    let token_hash = Sha256SessionTokenHasher.hash(token);
    let session = Session::new(SessionId::new().expect("Random source should be available"), user_id, token_hash, expires_at, created_at)
        .expect("Test session should be valid");
    repository.insert(&session).expect("Test session should be insertable");
}

#[test]
fn valid_session_returns_authenticated_user() {
    let mut repository = InMemorySessionRepository::new();

    let user_id = UserId::new().expect("Random source should be available");
    let token = SessionToken::from_string("this-is-a-session-token".to_owned());
    let created_at = Timestamp::now();
    store_session(&mut repository, user_id, &token, created_at, shifted(created_at, 3600));

    let service = AuthenticateSessionService::new(repository, Sha256SessionTokenHasher);
    let result = service
        .execute(AuthenticateSessionCommand { token })
        .expect("Session authentication should succeed");

    assert_eq!(result.user_id, user_id)
}

#[test]
fn unknown_token_returns_invalid_session() {
    let service =
        AuthenticateSessionService::new(InMemorySessionRepository::new(), Sha256SessionTokenHasher);

    let token = SessionToken::from_string("unknown-token".to_owned());

    let result = service.execute(AuthenticateSessionCommand { token });

    assert_eq!(result, Err(AuthenticateSessionError::InvalidSession))
}

#[test]
fn expired_session_returns_session_expired() {
    let mut repository = InMemorySessionRepository::new();

    let user_id = UserId::new().expect("Random source should be available");
    let token = SessionToken::from_string("this-is-a-session-token".to_owned());
    let now = Timestamp::now();
    store_session(&mut repository, user_id, &token, shifted(now, -7200), shifted(now, -3600));

    let service = AuthenticateSessionService::new(repository, Sha256SessionTokenHasher);
    let result = service.execute(AuthenticateSessionCommand { token });

    assert_eq!(result, Err(AuthenticateSessionError::SessionExpired))
}

#[test]
fn session_is_expired_exactly_at_its_expiry() {
    let mut repository = InMemorySessionRepository::new();

    let user_id = UserId::new().expect("Random source should be available");
    let token = SessionToken::from_string("this-is-a-session-token".to_owned());
    let created_at = Timestamp::new(1_000, 0);
    let expires_at = Timestamp::new(2_000, 0);
    store_session(&mut repository, user_id, &token, created_at, expires_at);

    let service = AuthenticateSessionService::new(repository, Sha256SessionTokenHasher);
    let hash = service.token_hash(&AuthenticateSessionCommand { token: token.clone() });
    let found = || service.repository().find_by_token_hash(&hash);

    assert_eq!(
        service.on_session_found_at(found(), Timestamp::new(1_999, 999_999_999)),
        Ok(AuthenticatedUser { user_id })
    );
    assert_eq!(
        service.on_session_found_at(found(), expires_at),
        Err(AuthenticateSessionError::SessionExpired)
    );
}

#[test]
fn deleted_session_no_longer_authenticates() {
    let mut repository = InMemorySessionRepository::new();

    let user_id = UserId::new().expect("Random source should be available");
    let token = SessionToken::from_string("this-is-a-session-token".to_owned());
    let created_at = Timestamp::now();
    store_session(&mut repository, user_id, &token, created_at, shifted(created_at, 3600));

    let hash = Sha256SessionTokenHasher.hash(&token);
    repository.delete_by_token_hash(&hash).expect("Deletion should succeed");

    let service = AuthenticateSessionService::new(repository, Sha256SessionTokenHasher);
    let result = service.execute(AuthenticateSessionCommand { token });

    assert_eq!(result, Err(AuthenticateSessionError::InvalidSession))
}

// ------------------------------------------------------------ session opening

type Opener = CreateSessionService<Sessions, SecureSessionTokenGenerator, Sha256SessionTokenHasher>;

fn open_session_stepwise(service: &Opener, user_id: UserId) -> Result<CreateSessionResult, CreateSessionError> {
    let (token, session) = service.prepare(&CreateSessionCommand { user_id })?;
    let inserted = service.repository().borrow_mut().insert(&session);
    service.complete(token, &session, inserted)
}

fn opener(lifetime_seconds: i64) -> (Opener, Sessions) {
    let repository: Sessions = Rc::new(RefCell::new(InMemorySessionRepository::new()));
    let service = CreateSessionService::new(
        repository.clone(),
        SecureSessionTokenGenerator::new(),
        Sha256SessionTokenHasher::new(),
        lifetime_seconds,
    );
    (service, repository)
}

fn owned_opener(
    lifetime_seconds: i64,
) -> CreateSessionService<InMemorySessionRepository, SecureSessionTokenGenerator, Sha256SessionTokenHasher> {
    CreateSessionService::new(
        InMemorySessionRepository::new(),
        SecureSessionTokenGenerator::new(),
        Sha256SessionTokenHasher::new(),
        lifetime_seconds,
    )
}

#[test]
fn opened_session_is_stored_under_the_hash_of_its_token() {
    let mut service = owned_opener(30 * SECONDS_PER_DAY);
    let user_id = UserId::new().expect("Random source should be available");

    let result = service.execute(CreateSessionCommand { user_id }).expect("Session should open");

    let stored = service
        .repository()
        .find_by_token_hash(&Sha256SessionTokenHasher.hash(&result.token))
        .expect("Lookup should succeed")
        .expect("Session should be stored");

    assert_eq!(stored.user_id(), user_id);
    assert_eq!(stored.expires_at(), result.expires_at);
    assert_eq!(stored.expires_at(), shifted(stored.created_at(), 30 * 86_400));
}

#[test]
fn opened_session_authenticates_its_user() {
    let (service, repository) = opener(SECONDS_PER_DAY);
    let user_id = UserId::new().expect("Random source should be available");

    let result = open_session_stepwise(&service, user_id).expect("Session should open");

    let authenticator = AuthenticateSessionService::new(repository.clone(), Sha256SessionTokenHasher);
    let user = authenticate_stepwise(&authenticator, AuthenticateSessionCommand { token: result.token })
        .expect("Session should authenticate");

    assert_eq!(user.user_id, user_id);
}

#[test]
fn non_positive_lifetime_is_rejected() {
    let mut service = owned_opener(0);

    assert_eq!(
        service.execute(CreateSessionCommand { user_id: UserId::new().expect("Random source should be available") }).err(),
        Some(CreateSessionError::InvalidLifetime)
    );
    assert!(service
        .repository()
        .find_by_token_hash(&Sha256SessionTokenHasher.hash(&SessionToken::from_string("x".to_owned())))
        .expect("Lookup should succeed")
        .is_none());
}

#[test]
fn overflowing_lifetime_is_rejected() {
    let mut service = owned_opener(i64::MAX);

    assert_eq!(
        service.execute(CreateSessionCommand { user_id: UserId::new().expect("Random source should be available") }).err(),
        Some(CreateSessionError::InvalidLifetime)
    );
}

#[test]
fn failed_session_store_is_reported() {
    let (service, _) = opener(SECONDS_PER_DAY);
    let (token, session) =
        service.prepare(&CreateSessionCommand { user_id: UserId::new().expect("Random source should be available") }).expect("Session should be prepared");

    assert_eq!(
        service
            .complete(token, &session, Err(SessionRepositoryError::TokenHashAlreadyExists))
            .err(),
        Some(CreateSessionError::RepositoryFailed)
    );
}

#[test]
fn session_at_computes_the_expiry() {
    let (service, _) = opener(SECONDS_PER_DAY);
    let token = SessionToken::from_string("token".to_owned());
    let now = Timestamp::new(1_700_000_000, 5);

    let session = service
        .session_at(UserId::from_uuid(7), &token, SessionId::from_uuid(9), now)
        .expect("Session should be valid");

    assert_eq!(session.expires_at(), Timestamp::new(1_700_086_400, 5));
    assert_eq!(session.created_at(), now);
    assert_eq!(session.id(), SessionId::from_uuid(9));
    assert_eq!(session.token_hash(), &Sha256SessionTokenHasher.hash(&token));
}

// ------------------------------------------------------------ configuration

#[test]
fn session_settings_are_accepted() {
    let config = SessionConfig::validated(30, "stockmate_session".to_owned(), true)
        .expect("Settings should be valid");

    assert_eq!(config.lifetime_days, 30);
    assert_eq!(config.cookie_name, "stockmate_session");
    assert!(config.cookie_secure);

    let cookie = config.cookie();
    assert_eq!(cookie.name, "stockmate_session");
    assert!(cookie.secure);
}

#[test]
fn non_positive_session_lifetime_is_rejected() {
    assert_eq!(
        SessionConfig::validated(0, "session".to_owned(), false).err(),
        Some(SessionConfigError::NonPositiveSessionLifetime)
    );
    assert_eq!(
        SessionConfig::validated(-3, "session".to_owned(), false).err(),
        Some(SessionConfigError::NonPositiveSessionLifetime)
    );
}

#[test]
fn blank_cookie_name_is_rejected() {
    assert_eq!(
        SessionConfig::validated(30, " \t ".to_owned(), false).err(),
        Some(SessionConfigError::EmptySessionCookieName)
    );
}

#[test]
fn current_user_keeps_its_id() {
    let user_id = UserId::from_uuid(42);

    assert_eq!(CurrentUser::new(user_id).user_id(), user_id);
}
