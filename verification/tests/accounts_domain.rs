use stockmate::accounts::domain::{
    DisplayName, DisplayNameError, Email, EmailError, PasswordHash, PasswordHashError, Session,
    SessionError, SessionId, SessionToken, SessionTokenHash, User, UserId,
};
use stockmate::time::Timestamp;

// ------------------------------------------------------------- display name

#[test]
fn display_name_surrounding_whitespace_is_removed() {
    let name = "    user_name      ";
    let result = DisplayName::parse(name).expect("User name should be parsable");

    assert_eq!(result.as_str(), "user_name")
}

#[test]
fn empty_display_name_is_rejected() {
    let name = " ";
    let result = DisplayName::parse(name);

    assert_eq!(result, Err(DisplayNameError::Empty))
}

#[test]
fn too_long_display_name_is_rejected() {
    let name = &"a".repeat(101);
    let result = DisplayName::parse(name);

    assert_eq!(result, Err(DisplayNameError::TooLong))
}

#[test]
fn valid_display_name_is_accepted() {
    let name = "this is a valid display name";
    let result = DisplayName::parse(name);

    assert!(result.is_ok())
}

#[test]
fn display_name_of_exactly_fifty_characters_is_accepted() {
    let name = "b".repeat(50);
    assert_eq!(DisplayName::parse(&name).expect("50 characters fit").as_str(), name);
    assert_eq!(DisplayName::parse(&"b".repeat(51)), Err(DisplayNameError::TooLong));
}

#[test]
fn display_name_counts_characters_not_bytes() {
    let name = "\u{e9}".repeat(50);
    assert!(DisplayName::parse(&name).is_ok());
}

#[test]
fn display_name_trims_unicode_whitespace() {
    let result = DisplayName::parse("\u{3000}\t name \u{a0}\n").expect("name should parse");
    assert_eq!(result.as_str(), "name");
    assert_eq!(DisplayName::parse("\u{2003}\u{205f}"), Err(DisplayNameError::Empty));
}

#[test]
fn parsed_display_name_parses_to_itself() {
    let first = DisplayName::parse("  Jo  Doe ").expect("name should parse");
    let second = DisplayName::parse(first.as_str()).expect("name should parse again");
    assert_eq!(first, second);
}

// -------------------------------------------------------------------- email

#[test]
fn valid_email_is_accepted() {
    let result = Email::parse("example.email@email.com");

    assert!(result.is_ok());
}

#[test]
fn email_surrounding_whitespace_is_removed() {
    let result = Email::parse("   example.email@email.com    ").expect("email should be valid");

    assert_eq!(result.as_str(), "example.email@email.com");
}

#[test]
fn empty_email_is_rejected() {
    let result = Email::parse("");

    assert_eq!(result, Err(EmailError::Empty));
}

#[test]
fn whitespace_only_email_is_rejected() {
    let result = Email::parse("    ");

    assert_eq!(result, Err(EmailError::Empty));
}

#[test]
fn email_without_at_sign_is_rejected() {
    let result = Email::parse("example.emailemail.com");

    assert_eq!(result, Err(EmailError::InvalidFormat));
}

#[test]
fn email_with_multiple_at_signs_is_rejected() {
    let result = Email::parse("example.email@@email.com");

    assert_eq!(result, Err(EmailError::InvalidFormat));
}

#[test]
fn email_without_domain_is_rejected() {
    let result = Email::parse("example.email@");

    assert_eq!(result, Err(EmailError::InvalidFormat));
}

#[test]
fn email_without_local_part_is_rejected() {
    let result = Email::parse("@email.com");

    assert_eq!(result, Err(EmailError::InvalidFormat));
}

#[test]
fn email_with_internal_whitespace_is_rejected() {
    let result = Email::parse("example email@email.com");

    assert_eq!(result, Err(EmailError::InvalidFormat));
}

#[test]
fn emails_written_the_same_are_the_same() {
    let first = Email::parse("a@b.com").expect("email should be valid");
    let second = Email::parse(" a@b.com ").expect("email should be valid");
    let third = Email::parse("c@b.com").expect("email should be valid");
    assert!(first.same_as(&second));
    assert!(!first.same_as(&third));
}

// ------------------------------------------------------------ password hash

#[test]
fn non_empty_hash_is_accepted() {
    let hash = PasswordHash::from_encoded("$argon2id$example");

    assert!(hash.is_ok());
}

#[test]
fn empty_hash_is_rejected() {
    let result = PasswordHash::from_encoded("");

    assert!(result == Err(PasswordHashError::Empty));
}

#[test]
fn whitespace_only_hash_is_rejected() {
    let result = PasswordHash::from_encoded("      ");

    assert!(result == Err(PasswordHashError::Empty));
}

#[test]
fn hash_can_be_read_as_str() {
    let hash = PasswordHash::from_encoded("$argon2id$example").expect("Hash should be valid");

    assert_eq!(hash.as_str(), "$argon2id$example");
}

#[test]
fn hash_keeps_surrounding_whitespace() {
    let hash = PasswordHash::from_encoded(" x ").expect("Hash should be valid");
    assert_eq!(hash.as_str(), " x ");
}

// ------------------------------------------------------------ session token

#[test]
fn from_string_preserves_value() {
    let token = "This is a session token";
    let session_token = SessionToken::from_string(token.to_string());

    assert_eq!(session_token.as_str(), token)
}

#[test]
fn into_string_returns_inner_string() {
    let token = "This is a session token";
    let session_token = SessionToken::from_string(token.to_string());

    assert_eq!(session_token.into_string(), token)
}

#[test]
fn blank_session_token_hash_is_rejected() {
    assert!(SessionTokenHash::from_encoded(" \t").is_err());
    assert_eq!(
        SessionTokenHash::from_encoded("abc").expect("hash should be valid").as_str(),
        "abc"
    );
}

// --------------------------------------------------------------------- user

#[test]
fn user_is_created_with_given_status() {
    let id = UserId::new().expect("Random source should be available");
    let email = Email::parse("example.email@email.com").expect("Email should be valid");
    let display_name = DisplayName::parse("valid name").expect("Display name should be valid");
    let password_hash =
        PasswordHash::from_encoded("$argon2id$example").expect("Password hash should be valid");

    let user = User::new(id, email.clone(), display_name, password_hash.clone());

    assert_eq!(user.id(), id);
    assert_eq!(user.email(), &email);
    assert!(user.password_hash() == &password_hash);
}

// ------------------------------------------------------------------ session

fn at(seconds: i64) -> Timestamp {
    Timestamp::new(seconds, 0)
}

/// 2026-08-01 12:00:00 UTC.
const CREATED: i64 = 1_785_585_600;

fn test_session(created_at: Timestamp, expires_at: Timestamp) -> Result<Session, SessionError> {
    Session::new(
        SessionId::new().expect("Random source should be available"),
        UserId::new().expect("Random source should be available"),
        SessionTokenHash::from_encoded("this_is_a_hash").expect("Test hash should be valid"),
        expires_at,
        created_at,
    )
}

#[test]
fn session_is_not_expired_before_expiration() {
    let created_at = at(CREATED);

    let expires_at = at(CREATED + 3600);
    let session = test_session(created_at, expires_at).expect("Session should be valid");

    assert!(!session.is_expired_at(created_at))
}

#[test]
fn session_is_expired_at_expiration_time() {
    let created_at = at(CREATED);

    let expires_at = at(CREATED + 3600);
    let session = test_session(created_at, expires_at).expect("Session should be valid!");

    assert!(session.is_expired_at(expires_at))
}

#[test]
fn session_is_expired_after_expiration() {
    let created_at = at(CREATED);

    let expires_at = at(CREATED + 3600);
    let session = test_session(created_at, expires_at).expect("Session should be valid");

    assert!(session.is_expired_at(at(CREATED + 3601)))
}

#[test]
fn invalid_session_gets_rejected() {
    let created_at = at(CREATED);

    let expires_at = at(CREATED - 1);
    let session = test_session(created_at, expires_at);

    assert_eq!(session, Err(SessionError::InvalidExpiration))
}

#[test]
fn session_expiring_at_creation_is_rejected() {
    let session = test_session(at(CREATED), at(CREATED));
    assert_eq!(session, Err(SessionError::InvalidExpiration));
}

#[test]
fn session_order_uses_nanoseconds() {
    let created_at = Timestamp::new(CREATED, 10);
    let expires_at = Timestamp::new(CREATED, 11);
    let session = test_session(created_at, expires_at).expect("Session should be valid");
    assert!(!session.is_expired_at(Timestamp::new(CREATED, 10)));
    assert!(session.is_expired_at(Timestamp::new(CREATED, 11)));
    assert_eq!(session.created_at(), created_at);
    assert_eq!(session.expires_at(), expires_at);
}

// --------------------------------------------------------------- session id

#[test]
fn session_id_new_creates_different_ids() {
    let first = SessionId::new().expect("Random source should be available");
    let second = SessionId::new().expect("Random source should be available");

    assert_ne!(first, second);
}

#[test]
fn session_id_from_uuid_preserves_uuid() {
    let uuid = uuid::Uuid::new_v4();

    let session_id = SessionId::from_uuid(uuid.as_u128());

    assert_eq!(session_id.as_uuid(), uuid.as_u128());
}

#[test]
fn session_id_into_uuid_returns_the_inner_uuid() {
    let uuid = uuid::Uuid::new_v4();
    let session_id = SessionId::from_uuid(uuid.as_u128());

    let result = session_id.into_uuid();

    assert_eq!(result, uuid.as_u128());
}

#[test]
fn new_ids_are_version_four_uuids() {
    let value = UserId::new().expect("Random source should be available").into_uuid();
    assert_eq!(uuid::Uuid::from_u128(value).get_version_num(), 4);
}
