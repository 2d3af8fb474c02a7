use stockmate::accounts::domain::{
    DisplayName, Email, PasswordHash, Session, SessionId, SessionTokenHash, User, UserId,
};
use stockmate::accounts::in_memory::{InMemorySessionRepository, InMemoryUserRepository};
use stockmate::accounts::ports::{SessionRepositoryError, UserRepositoryError};
use stockmate::households::domain::{
    Household, HouseholdError, HouseholdId, HouseholdKind, HouseholdMember, HouseholdName,
    HouseholdRole,
};
use stockmate::households::in_memory::{validate_aggregate, InMemoryHouseholdRepository};
use stockmate::households::ports::HouseholdRepositoryError;
use stockmate::time::Timestamp;

fn later(t: Timestamp, seconds: i64) -> Timestamp {
    Timestamp::new(t.seconds + seconds, t.nanoseconds)
}

fn create_session(token_hash: &str) -> Session {
    let now = Timestamp::now();
    Session::new(
        SessionId::new().expect("Random source should be available"),
        UserId::new().expect("Random source should be available"),
        SessionTokenHash::from_encoded(token_hash).expect("Test hash should be valid"),
        later(now, 3600),
        now,
    )
    .expect("Test session should be valid")
}

fn create_user(email: &str) -> User {
    User::new(
        UserId::new().expect("Random source should be available"),
        Email::parse(email).expect("Test email should be valid"),
        DisplayName::parse("Test user").expect("Test display name should be valid"),
        PasswordHash::from_encoded("$argon2id$example").expect("Test hash should be valid"),
    )
}

fn same_user(a: &User, b: &User) -> bool {
    a.id() == b.id() && a.email() == b.email() && a.display_name() == b.display_name()
        && a.password_hash() == b.password_hash()
}

// ------------------------------------------------------------- session store

#[test]
fn session_can_be_inserted() {
    let mut repository = InMemorySessionRepository::new();
    let session = create_session("this-is-a-hash");

    assert!(repository.insert(&session).is_ok());
}

#[test]
fn inserted_session_can_be_found_by_token_hash() {
    let token_hash = "this-is-a-hash";

    let mut repository = InMemorySessionRepository::new();
    let session = create_session(token_hash);

    repository.insert(&session).expect("Session insertion should succeed");

    let found = repository
        .find_by_token_hash(session.token_hash())
        .expect("Session lookup should succeed")
        .expect("Inserted session should exist");

    assert_eq!(found.id(), session.id());
    assert_eq!(found.user_id(), session.user_id());
    assert_eq!(found.token_hash(), session.token_hash());
    assert_eq!(found.expires_at(), session.expires_at());
    assert_eq!(found.created_at(), session.created_at());
}

#[test]
fn unknown_token_hash_returns_none() {
    let token_hash = "this-is-a-hash";
    let another_token_hash =
        SessionTokenHash::from_encoded("this-is-another-hash").expect("Another Hash should be valid");

    let mut repository = InMemorySessionRepository::new();
    let session = create_session(token_hash);

    repository.insert(&session).expect("Session insertion should succeed");

    let found = repository
        .find_by_token_hash(&another_token_hash)
        .expect("Session lookup should succeed");
    assert!(found.is_none())
}

#[test]
fn session_can_be_deleted_by_token_hash() {
    let token_hash = "this-is-a-hash";

    let mut repository = InMemorySessionRepository::new();
    let session = create_session(token_hash);

    repository.insert(&session).expect("Session insertion should succeed");

    assert!(repository.delete_by_token_hash(session.token_hash()).is_ok());
}

#[test]
fn deleted_session_can_no_longer_be_found() {
    let token_hash = "this-is-a-hash";

    let mut repository = InMemorySessionRepository::new();
    let session = create_session(token_hash);

    repository.insert(&session).expect("Session insertion should succeed");

    repository
        .delete_by_token_hash(session.token_hash())
        .expect("Deletion should succeed");

    let result = repository
        .find_by_token_hash(session.token_hash())
        .expect("Lookup should succeed");

    assert!(result.is_none());
}

#[test]
fn duplicate_token_hash_is_rejected() {
    let token_hash = "this-is-a-hash";

    let mut repository = InMemorySessionRepository::new();
    let session = create_session(token_hash);

    repository.insert(&session).expect("Session insertion should succeed");

    let result = repository.insert(&session);

    assert_eq!(result, Err(SessionRepositoryError::TokenHashAlreadyExists))
}

#[test]
fn deleting_an_unknown_session_succeeds_and_keeps_others() {
    let mut repository = InMemorySessionRepository::new();
    let kept = create_session("kept");
    repository.insert(&kept).expect("Session insertion should succeed");
    let unknown = SessionTokenHash::from_encoded("unknown").expect("hash should be valid");
    assert!(repository.delete_by_token_hash(&unknown).is_ok());
    assert!(repository.find_by_token_hash(kept.token_hash()).expect("lookup").is_some());
}

#[test]
fn several_sessions_are_kept_apart() {
    let mut repository = InMemorySessionRepository::new();
    let first = create_session("first");
    let second = create_session("second");
    repository.insert(&first).expect("insert first");
    repository.insert(&second).expect("insert second");
    repository.delete_by_token_hash(first.token_hash()).expect("delete first");
    assert!(repository.find_by_token_hash(first.token_hash()).expect("lookup").is_none());
    let found = repository.find_by_token_hash(second.token_hash()).expect("lookup").expect("second");
    assert_eq!(found.id(), second.id());
    assert!(repository.insert(&first).is_ok());
}

// ---------------------------------------------------------------- user store

#[test]
fn user_can_be_inserted() {
    let user = create_user("this.email@domain.com");

    let mut repository = InMemoryUserRepository::new();

    let result = repository.insert(&user);

    assert!(result.is_ok());
}

#[test]
fn inserted_user_can_be_found_by_id() {
    let user = create_user("this.email@domain.com");

    let mut repository = InMemoryUserRepository::new();

    repository.insert(&user).expect("User insertion should succeed");

    let search = repository.find_by_id(&user.id()).expect("Repository lookup should succeed");

    let found = search.expect("Inserted user should exist");

    assert_eq!(found.id(), user.id());
    assert_eq!(found.email(), user.email());
}

#[test]
fn inserted_user_can_be_found_by_email() {
    let user = create_user("this.email@domain.com");

    let mut repository = InMemoryUserRepository::new();

    repository.insert(&user).expect("User insertion should succeed");

    let search = repository.find_by_email(user.email()).expect("Repository lookup should succeed");

    let found = search.expect("Inserted user should exist");

    assert_eq!(found.id(), user.id());
    assert_eq!(found.email(), user.email());
}

#[test]
fn in_memory_user_repository_duplicate_email_is_rejected() {
    let user1 = create_user("this.email@domain.com");
    let user2 = create_user("this.email@domain.com");

    let mut repository = InMemoryUserRepository::new();

    repository.insert(&user1).expect("User insertion should succeed");

    let result = repository.insert(&user2);

    assert_eq!(result, Err(UserRepositoryError::EmailAlreadyExists));
}

#[test]
fn unknown_user_id_returns_none() {
    let repository = InMemoryUserRepository::new();

    let id = UserId::new().expect("Random source should be available");

    let result = repository.find_by_id(&id).expect("Repository lookup should succeed");

    assert!(result.is_none());
}

#[test]
fn unknown_user_email_returns_none() {
    let repository = InMemoryUserRepository::new();

    let email = Email::parse("another.email@domain.com").expect("Email should be valid");

    let result = repository.find_by_email(&email).expect("Repository lookup should succeed");

    assert!(result.is_none());
}

#[test]
fn existing_users_are_returned() {
    let mut repository = InMemoryUserRepository::new();

    let first_user = create_user("first@email.com");
    let second_user = create_user("second@email.com");

    repository.insert(&first_user).expect("User insertion should succeed");
    repository.insert(&second_user).expect("User insertion should succeed");

    let ids = vec![first_user.id(), second_user.id()];

    let result = repository.find_by_ids(&ids).expect("User lookup should succeed");

    assert_eq!(result.len(), 2);
    assert!(result.contains(&first_user));
    assert!(result.contains(&second_user));
}

#[test]
fn unknown_ids_are_ignored() {
    let mut repository = InMemoryUserRepository::new();

    let first_user = create_user("first@email.com");
    let second_user = create_user("second@email.com");

    repository.insert(&first_user).expect("User insertion should succeed");

    let ids = vec![first_user.id(), second_user.id()];

    let result = repository.find_by_ids(&ids).expect("User lookup should succeed");

    assert_eq!(result.len(), 1);
    assert!(result.contains(&first_user));
    assert!(!result.contains(&second_user));
}

#[test]
fn empty_id_list_returns_empty_vec() {
    let mut repository = InMemoryUserRepository::new();

    let first_user = create_user("first@email.com");
    let second_user = create_user("second@email.com");

    repository.insert(&first_user).expect("User insertion should succeed");
    repository.insert(&second_user).expect("User insertion should succeed");

    let ids = vec![];

    let result = repository.find_by_ids(&ids).expect("User lookup should succeed");

    assert_eq!(result.len(), 0);
    assert!(!result.contains(&first_user));
    assert!(!result.contains(&second_user));
}

#[test]
fn only_requested_users_are_returned() {
    let mut repository = InMemoryUserRepository::new();

    let first_user = create_user("first@email.com");
    let second_user = create_user("second@email.com");
    let third_user = create_user("third@email.com");

    repository.insert(&first_user).expect("User insertion should succeed");
    repository.insert(&second_user).expect("User insertion should succeed");
    repository.insert(&third_user).expect("User insertion should succeed");

    let ids = vec![first_user.id(), second_user.id()];

    let result = repository.find_by_ids(&ids).expect("User lookup should succeed");

    assert_eq!(result.len(), 2);
    assert!(result.contains(&first_user));
    assert!(result.contains(&second_user));
    assert!(!result.contains(&third_user));
}

#[test]
fn users_are_returned_in_the_order_of_the_ids() {
    let mut repository = InMemoryUserRepository::new();
    let first_user = create_user("first@email.com");
    let second_user = create_user("second@email.com");
    repository.insert(&first_user).expect("insert");
    repository.insert(&second_user).expect("insert");
    let ids = vec![second_user.id(), UserId::new().expect("Random source should be available"), first_user.id(), second_user.id()];
    let result = repository.find_by_ids(&ids).expect("lookup");
    assert_eq!(result.len(), 3);
    assert!(same_user(&result[0], &second_user));
    assert!(same_user(&result[1], &first_user));
    assert!(same_user(&result[2], &second_user));
}

#[test]
fn user_with_the_same_id_is_replaced() {
    let mut repository = InMemoryUserRepository::new();
    let first = create_user("first@email.com");
    repository.insert(&first).expect("insert");
    let replacement = User::new(
        first.id(),
        Email::parse("new@email.com").expect("email"),
        DisplayName::parse("New name").expect("name"),
        PasswordHash::from_encoded("$other").expect("hash"),
    );
    repository.insert(&replacement).expect("replacement has a free email");
    let found = repository.find_by_id(&first.id()).expect("lookup").expect("user");
    assert!(same_user(&found, &replacement));
    let old_email = Email::parse("first@email.com").expect("email");
    assert!(repository.find_by_email(&old_email).expect("lookup").is_none());
}

// ----------------------------------------------------------- household store

fn create_household(
    id: HouseholdId,
    kind: HouseholdKind,
    personal_owner_id: Option<UserId>,
) -> Result<Household, HouseholdError> {
    Household::new(
        id,
        HouseholdName::parse("This is a name").expect("Test name should be valid"),
        kind,
        personal_owner_id,
        Timestamp::now(),
        Timestamp::now(),
    )
}

fn create_owned_household(user_id: UserId, kind: HouseholdKind) -> (Household, HouseholdMember) {
    let household_id = HouseholdId::new().expect("Random source should be available");
    let now = Timestamp::now();

    let owner = HouseholdMember::new(household_id, user_id, HouseholdRole::Owner, now);

    let personal_owner_id = match kind {
        HouseholdKind::Personal => Some(user_id),
        HouseholdKind::Shared => None,
    };

    let household = Household::new(
        household_id,
        HouseholdName::parse("Test household").expect("Test household name should be valid"),
        kind,
        personal_owner_id,
        now,
        now,
    )
    .expect("Test household should be valid");

    (household, owner)
}

fn create_household_member(
    household_id: HouseholdId,
    user_id: UserId,
    role: HouseholdRole,
) -> HouseholdMember {
    HouseholdMember::new(household_id, user_id, role, Timestamp::now())
}

#[test]
fn personal_household_with_owner_can_be_created() {
    let mut repository = InMemoryHouseholdRepository::new();

    let (household, owner) = create_owned_household(UserId::new().expect("Random source should be available"), HouseholdKind::Personal);

    let result = repository.create_with_owner(&household, &owner);

    assert!(result.is_ok())
}

#[test]
fn shared_household_with_owner_can_be_created() {
    let mut repository = InMemoryHouseholdRepository::new();

    let (household, owner) = create_owned_household(UserId::new().expect("Random source should be available"), HouseholdKind::Shared);

    let result = repository.create_with_owner(&household, &owner);

    assert!(result.is_ok())
}

#[test]
fn created_household_can_be_found_by_id() {
    let mut repository = InMemoryHouseholdRepository::new();

    let (household, owner) = create_owned_household(UserId::new().expect("Random source should be available"), HouseholdKind::Shared);

    repository
        .create_with_owner(&household, &owner)
        .expect("Household creation should succeed");

    let result = repository.find_by_id(&household.id()).expect("Household lookup should succeed");

    assert_eq!(result, Some(household))
}

#[test]
fn personal_household_can_be_found_by_owner() {
    let mut repository = InMemoryHouseholdRepository::new();

    let (household, owner) = create_owned_household(UserId::new().expect("Random source should be available"), HouseholdKind::Personal);

    repository
        .create_with_owner(&household, &owner)
        .expect("Household creation should succeed");

    let result = repository
        .find_personal_by_owner(&owner.user_id())
        .expect("Household lookup should succeed");

    assert_eq!(result, Some(household))
}

#[test]
fn in_memory_household_repository_households_for_user_are_returned() {
    let mut repository = InMemoryHouseholdRepository::new();

    let user_id = UserId::new().expect("Random source should be available");

    let (personal_household, personal_owner) =
        create_owned_household(user_id, HouseholdKind::Personal);
    let (shared_household, shared_owner) = create_owned_household(user_id, HouseholdKind::Shared);

    repository
        .create_with_owner(&personal_household, &personal_owner)
        .expect("Personal household creation should succeed");
    repository
        .create_with_owner(&shared_household, &shared_owner)
        .expect("Shared household creation should succeed");

    let result = repository
        .find_for_user(&personal_owner.user_id())
        .expect("Household lookup should succeed");

    assert_eq!(result.len(), 2);
    assert!(result.contains(&personal_household));
    assert!(result.contains(&shared_household))
}

#[test]
fn duplicate_personal_household_is_rejected() {
    let mut repository = InMemoryHouseholdRepository::new();

    let user_id = UserId::new().expect("Random source should be available");

    let (personal_household, first_owner) = create_owned_household(user_id, HouseholdKind::Personal);
    let (another_personal_household, second_owner) =
        create_owned_household(user_id, HouseholdKind::Personal);

    repository
        .create_with_owner(&personal_household, &first_owner)
        .expect("Household creation should succeed");

    let result = repository.create_with_owner(&another_personal_household, &second_owner);

    assert_eq!(result, Err(HouseholdRepositoryError::PersonalHouseholdAlreadyExists))
}

#[test]
fn inconsistent_owner_membership_is_rejected() {
    let mut repository = InMemoryHouseholdRepository::new();

    let user_id = UserId::new().expect("Random source should be available");
    let household_id = HouseholdId::new().expect("Random source should be available");
    let another_household_id = HouseholdId::new().expect("Random source should be available");

    let household = create_household(household_id, HouseholdKind::Shared, None)
        .expect("Test household should be valid");

    let owner = create_household_member(another_household_id, user_id, HouseholdRole::Owner);

    let result = repository.create_with_owner(&household, &owner);

    assert_eq!(result, Err(HouseholdRepositoryError::InvalidAggregate))
}

#[test]
fn non_owner_membership_is_rejected() {
    let mut repository = InMemoryHouseholdRepository::new();

    let user_id = UserId::new().expect("Random source should be available");
    let household_id = HouseholdId::new().expect("Random source should be available");

    let household = create_household(household_id, HouseholdKind::Shared, None)
        .expect("Test household should be valid");

    let owner = create_household_member(household_id, user_id, HouseholdRole::Member);

    let result = repository.create_with_owner(&household, &owner);

    assert_eq!(result, Err(HouseholdRepositoryError::InvalidAggregate))
}

#[test]
fn unknown_household_returns_none() {
    let repository = InMemoryHouseholdRepository::default();

    let result = repository.find_by_id(&HouseholdId::new().expect("Random source should be available")).expect("Household lookup should succeed");

    assert!(result.is_none())
}

#[test]
fn user_without_households_returns_empty_list() {
    let repository = InMemoryHouseholdRepository::default();

    let result = repository.find_for_user(&UserId::new().expect("Random source should be available")).expect("Household lookup should succeed");

    assert!(result.is_empty())
}

#[test]
fn personal_household_owned_by_someone_else_is_inconsistent() {
    let household_id = HouseholdId::new().expect("Random source should be available");
    let household = create_household(household_id, HouseholdKind::Personal, Some(UserId::new().expect("Random source should be available")))
        .expect("household should be valid");
    let owner = create_household_member(household_id, UserId::new().expect("Random source should be available"), HouseholdRole::Owner);
    assert_eq!(validate_aggregate(&household, &owner), Err(HouseholdRepositoryError::InvalidAggregate));
}

#[test]
fn household_with_an_existing_id_is_rejected() {
    let mut repository = InMemoryHouseholdRepository::new();
    let (household, owner) = create_owned_household(UserId::new().expect("Random source should be available"), HouseholdKind::Shared);
    repository.create_with_owner(&household, &owner).expect("creation");
    let other_owner = create_household_member(household.id(), UserId::new().expect("Random source should be available"), HouseholdRole::Owner);
    assert_eq!(
        repository.create_with_owner(&household, &other_owner),
        Err(HouseholdRepositoryError::HouseholdAlreadyExists)
    );
}

#[test]
fn members_can_be_added_found_and_removed() {
    let mut repository = InMemoryHouseholdRepository::new();
    let (household, owner) = create_owned_household(UserId::new().expect("Random source should be available"), HouseholdKind::Shared);
    repository.create_with_owner(&household, &owner).expect("creation");
    let member = create_household_member(household.id(), UserId::new().expect("Random source should be available"), HouseholdRole::Member);
    repository.add_member(&member).expect("adding succeeds");
    assert_eq!(repository.find_member(&household.id(), &member.user_id()).expect("lookup"), Some(member));
    assert_eq!(repository.find_for_user(&member.user_id()).expect("lookup"), vec![household.clone()]);
    repository.remove_member(&household.id(), &member.user_id()).expect("removal succeeds");
    assert_eq!(repository.find_member(&household.id(), &member.user_id()).expect("lookup"), None);
    assert_eq!(
        repository.remove_member(&household.id(), &member.user_id()),
        Err(HouseholdRepositoryError::MemberNotFound)
    );
    assert_eq!(repository.find_member(&household.id(), &owner.user_id()).expect("lookup"), Some(owner));
}
