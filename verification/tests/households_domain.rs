use stockmate::accounts::domain::UserId;
use stockmate::households::domain::{
    Household, HouseholdError, HouseholdId, HouseholdKind, HouseholdKindError, HouseholdMember,
    HouseholdName, HouseholdNameError, HouseholdRole, HouseholdRoleError,
};
use stockmate::time::Timestamp;

// ---------------------------------------------------------------- household

fn test_household(
    kind: HouseholdKind,
    personal_owner_id: Option<UserId>,
    created_at: Timestamp,
    updated_at: Timestamp,
) -> Result<Household, HouseholdError> {
    Household::new(
        HouseholdId::new().expect("Random source should be available"),
        HouseholdName::parse("valid household name").expect("Test household name should be valid"),
        kind,
        personal_owner_id,
        created_at,
        updated_at,
    )
}

#[test]
fn valid_personal_household_is_accepted() {
    let user_id = UserId::new().expect("Random source should be available");

    let now = Timestamp::now();

    let household = test_household(HouseholdKind::Personal, Some(user_id), now, now);

    assert!(household.is_ok())
}

#[test]
fn personal_household_without_owner_is_rejected() {
    let now = Timestamp::now();

    let household = test_household(HouseholdKind::Personal, None, now, now);

    assert_eq!(household, Err(HouseholdError::PersonalHouseholdRequiresOwner))
}

#[test]
fn valid_shared_household_is_accepted() {
    let now = Timestamp::now();

    let household = test_household(HouseholdKind::Shared, None, now, now);

    assert!(household.is_ok())
}

#[test]
fn shared_household_with_personal_owner_is_rejected() {
    let user_id = UserId::new().expect("Random source should be available");

    let now = Timestamp::now();

    let household = test_household(HouseholdKind::Shared, Some(user_id), now, now);

    assert_eq!(household, Err(HouseholdError::SharedHouseholdCannotHavePersonalOwner))
}

#[test]
fn equal_timestamps_are_accepted() {
    let now = Timestamp::now();

    let household = test_household(HouseholdKind::Shared, None, now, now);

    assert!(household.is_ok())
}

#[test]
fn updated_at_before_created_at_is_rejected() {
    let created_at = Timestamp::now();
    let updated_at = Timestamp::new(created_at.seconds - 3600, created_at.nanoseconds);

    let household = test_household(HouseholdKind::Shared, None, created_at, updated_at);

    assert_eq!(household, Err(HouseholdError::InvalidTimestamps))
}

#[test]
fn timestamp_error_takes_precedence_over_owner_error() {
    let household = test_household(
        HouseholdKind::Personal,
        None,
        Timestamp::new(10, 0),
        Timestamp::new(9, 999_999_999),
    );
    assert_eq!(household, Err(HouseholdError::InvalidTimestamps));
}

#[test]
fn household_keeps_its_fields() {
    let id = HouseholdId::new().expect("Random source should be available");
    let owner = UserId::new().expect("Random source should be available");
    let created = Timestamp::new(100, 5);
    let updated = Timestamp::new(200, 0);
    let household = Household::new(
        id,
        HouseholdName::parse(" Home ").expect("name should parse"),
        HouseholdKind::Personal,
        Some(owner),
        created,
        updated,
    )
    .expect("household should be valid");
    assert_eq!(household.id(), id);
    assert_eq!(household.name().as_str(), "Home");
    assert_eq!(household.kind(), HouseholdKind::Personal);
    assert_eq!(household.personal_owner_id(), Some(owner));
    assert_eq!(household.created_at(), created);
    assert_eq!(household.updated_at(), updated);
}

// ------------------------------------------------------------- household id

#[test]
fn household_id_new_creates_different_ids() {
    let first = HouseholdId::new().expect("Random source should be available");
    let second = HouseholdId::new().expect("Random source should be available");

    assert_ne!(first, second);
}

#[test]
fn household_id_from_uuid_preserves_uuid() {
    let uuid = uuid::Uuid::new_v4();

    let household_id = HouseholdId::from_uuid(uuid.as_u128());

    assert_eq!(household_id.as_uuid(), uuid.as_u128());
}

#[test]
fn household_id_into_uuid_returns_the_inner_uuid() {
    let uuid = uuid::Uuid::new_v4();
    let household_id = HouseholdId::from_uuid(uuid.as_u128());

    let result = household_id.into_uuid();

    assert_eq!(result, uuid.as_u128());
}

// ----------------------------------------------------------- household kind

#[test]
fn personal_can_be_parsed() {
    assert_eq!(HouseholdKind::parse("personal"), Ok(HouseholdKind::Personal))
}

#[test]
fn shared_can_be_parsed() {
    assert_eq!(HouseholdKind::parse("shared"), Ok(HouseholdKind::Shared))
}

#[test]
fn unknown_kind_is_rejected() {
    assert_eq!(HouseholdKind::parse("unknown"), Err(HouseholdKindError::Invalid))
}

#[test]
fn household_kind_as_str_returns_database_representation() {
    assert_eq!(HouseholdKind::Personal.as_str(), "personal");
    assert_eq!(HouseholdKind::Shared.as_str(), "shared")
}

#[test]
fn household_kind_parsing_is_exact() {
    assert_eq!(HouseholdKind::parse("Personal"), Err(HouseholdKindError::Invalid));
    assert_eq!(HouseholdKind::parse(" shared"), Err(HouseholdKindError::Invalid));
    assert_eq!(HouseholdKind::parse(""), Err(HouseholdKindError::Invalid));
    for kind in [HouseholdKind::Personal, HouseholdKind::Shared] {
        assert_eq!(HouseholdKind::parse(kind.as_str()), Ok(kind));
    }
}

// ----------------------------------------------------------- household member

#[test]
fn member_is_created_with_given_values() {
    let household_id = HouseholdId::new().expect("Random source should be available");
    let user_id = UserId::new().expect("Random source should be available");
    let created_at = Timestamp::now();

    let member = HouseholdMember::new(household_id, user_id, HouseholdRole::Owner, created_at);

    assert_eq!(member.household_id(), household_id);
    assert_eq!(member.user_id(), user_id);
    assert_eq!(member.role(), HouseholdRole::Owner);
    assert_eq!(member.created_at(), created_at)
}

// ----------------------------------------------------------- household name

#[test]
fn household_name_surrounding_whitespace_is_removed() {
    let name = "    household_name      ";
    let result = HouseholdName::parse(name).expect("Household name should be parsable");

    assert_eq!(result.as_str(), "household_name")
}

#[test]
fn empty_household_name_is_rejected() {
    let name = " ";
    let result = HouseholdName::parse(name);

    assert_eq!(result, Err(HouseholdNameError::Empty))
}

#[test]
fn too_long_household_name_is_rejected() {
    let name = &"a".repeat(101);
    let result = HouseholdName::parse(name);

    assert_eq!(result, Err(HouseholdNameError::TooLong))
}

#[test]
fn valid_household_name_is_accepted() {
    let name = "this is a household display name";
    let result = HouseholdName::parse(name);

    assert!(result.is_ok())
}

#[test]
fn household_name_of_exactly_fifty_characters_is_accepted() {
    let name = "h".repeat(50);
    assert_eq!(HouseholdName::parse(&name).expect("50 characters fit").as_str(), name);
}

#[test]
fn household_name_of_fifty_one_characters_is_rejected() {
    assert_eq!(HouseholdName::parse(&"a".repeat(51)), Err(HouseholdNameError::TooLong));
}

// ----------------------------------------------------------- household role

#[test]
fn owner_can_be_parsed() {
    assert_eq!(HouseholdRole::parse("owner"), Ok(HouseholdRole::Owner))
}

#[test]
fn member_can_be_parsed() {
    assert_eq!(HouseholdRole::parse("member"), Ok(HouseholdRole::Member))
}

#[test]
fn unknown_role_is_rejected() {
    assert_eq!(HouseholdRole::parse("unknown"), Err(HouseholdRoleError::Invalid))
}

#[test]
fn household_role_as_str_returns_database_representation() {
    assert_eq!(HouseholdRole::Owner.as_str(), "owner");
    assert_eq!(HouseholdRole::Member.as_str(), "member")
}

#[test]
fn household_role_round_trips() {
    for role in [HouseholdRole::Owner, HouseholdRole::Member] {
        assert_eq!(HouseholdRole::parse(role.as_str()), Ok(role));
    }
    assert_eq!(HouseholdRole::parse("OWNER"), Err(HouseholdRoleError::Invalid));
}

#[test]
fn new_household_ids_are_version_four_with_rfc_variant() {
    let id = HouseholdId::new().expect("Random source should be available");

    assert_eq!((id.as_uuid() >> 76) & 0xf, 4);
    assert_eq!((id.as_uuid() >> 62) & 0x3, 2);
}

#[test]
fn kinds_and_roles_parse_through_from_str() {
    assert_eq!("personal".parse::<HouseholdKind>(), Ok(HouseholdKind::Personal));
    assert_eq!("shared".parse::<HouseholdKind>(), Ok(HouseholdKind::Shared));
    assert_eq!("member".parse::<HouseholdRole>(), Ok(HouseholdRole::Member));
    assert!("Personal".parse::<HouseholdKind>().is_err());
}
