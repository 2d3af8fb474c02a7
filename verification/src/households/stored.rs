//! Households as a database keeps them: rows of plain values, read back into
//! the domain under the same checks as new values, and the database's
//! refusals told apart by the constraint that refused them.
use vstd::prelude::*;
use crate::accounts::domain::UserId;
use crate::households::domain::{
    household_check, household_kind_outcome, household_name_outcome, household_role_outcome,
    Household, HouseholdId, HouseholdKind, HouseholdMember, HouseholdName, HouseholdRole,
    HouseholdView,
};
use crate::households::ports::HouseholdRepositoryError;
use crate::shared::{names_constraint, PersistenceError};
use crate::text::str_equals;
use crate::time::Timestamp;

verus! {

/// The primary key of the households table.
pub const HOUSEHOLDS_PRIMARY_KEY: &'static str = "households_pkey";

/// The unique index that allows one personal household per owner.
pub const HOUSEHOLDS_PERSONAL_OWNER_UNIQUE_INDEX: &'static str = "households_personal_owner_unique_idx";

/// A row of the households table.
pub struct HouseholdRow {
    pub id: u128,
    pub name: String,
    pub kind: String,
    pub personal_owner_id: Option<u128>,
    pub created_at: Timestamp,
    pub updated_at: Timestamp,
}

/// A row of the household members table.
pub struct HouseholdMemberRow {
    pub household_id: u128,
    pub user_id: u128,
    pub role: String,
    pub created_at: Timestamp,
}

/// The household that a row holds, or `None` where the row breaks a rule of
/// households: a name, kind or combination of fields that a new household
/// could not have.
pub open spec fn household_from_row(
    id: u128,
    name: Seq<char>,
    kind: Seq<char>,
    personal_owner_id: Option<u128>,
    created_at: Timestamp,
    updated_at: Timestamp,
) -> Option<HouseholdView> {
    match (household_name_outcome(name), household_kind_outcome(kind)) {
        (Ok(name), Ok(kind)) => {
            let owner = match personal_owner_id {
                Some(v) => Some(UserId::from_value(v)),
                None => None,
            };
            if household_check(kind, owner, created_at, updated_at) is None {
                Some(
                    HouseholdView {
                        id: HouseholdId::from_value(id),
                        name,
                        kind,
                        personal_owner_id: owner,
                        created_at,
                        updated_at,
                    },
                )
            } else {
                None
            }
        },
        _ => None,
    }
}

impl Household {
    /// Reads a household back from its row; a row that breaks a rule of
    /// households is `InvalidStoredData`.
    pub fn from_row(row: HouseholdRow) -> (r: Result<Household, HouseholdRepositoryError>)
        ensures
            match household_from_row(
                row.id,
                row.name@,
                row.kind@,
                row.personal_owner_id,
                row.created_at,
                row.updated_at,
            ) {
                Some(v) => r matches Ok(h) && h@ == v,
                None => r == Err::<Household, HouseholdRepositoryError>(
                    HouseholdRepositoryError::InvalidStoredData,
                ),
            },
    {
        let name = match HouseholdName::parse(row.name.as_str()) {
            Ok(name) => name,
            Err(_) => return Err(HouseholdRepositoryError::InvalidStoredData),
        };
        let kind = match HouseholdKind::parse(row.kind.as_str()) {
            Ok(kind) => kind,
            Err(_) => return Err(HouseholdRepositoryError::InvalidStoredData),
        };
        let personal_owner_id = match row.personal_owner_id {
            Some(v) => Some(UserId::from_uuid(v)),
            None => None,
        };
        match Household::new(
            HouseholdId::from_uuid(row.id),
            name,
            kind,
            personal_owner_id,
            row.created_at,
            row.updated_at,
        ) {
            Ok(household) => Ok(household),
            Err(_) => Err(HouseholdRepositoryError::InvalidStoredData),
        }
    }
}

impl HouseholdMember {
    /// Reads a membership back from its row; an unknown role is
    /// `InvalidStoredData`.
    pub fn from_row(row: HouseholdMemberRow) -> (r: Result<HouseholdMember, HouseholdRepositoryError>)
        ensures
            match household_role_outcome(row.role@) {
                Ok(role) => r matches Ok(m) && m.spec_household_id() == HouseholdId::from_value(
                    row.household_id,
                ) && m.spec_user_id() == UserId::from_value(row.user_id) && m.spec_role() == role
                    && m.spec_created_at() == row.created_at,
                Err(_) => r == Err::<HouseholdMember, HouseholdRepositoryError>(
                    HouseholdRepositoryError::InvalidStoredData,
                ),
            },
    {
        let role = match HouseholdRole::parse(row.role.as_str()) {
            Ok(role) => role,
            Err(_) => return Err(HouseholdRepositoryError::InvalidStoredData),
        };
        Ok(
            HouseholdMember::new(
                HouseholdId::from_uuid(row.household_id),
                UserId::from_uuid(row.user_id),
                role,
                row.created_at,
            ),
        )
    }
}

/// How a refused insertion of a household is reported: a unique violation
/// of the primary key is `HouseholdAlreadyExists`, one of the personal-owner
/// index is `PersonalHouseholdAlreadyExists`, and anything else is the
/// persistence failure `otherwise`.
pub fn household_insert_error(
    unique_violation: bool,
    constraint: Option<&str>,
    otherwise: PersistenceError,
) -> (r: HouseholdRepositoryError)
    ensures
        r == if unique_violation && names_constraint(constraint, HOUSEHOLDS_PRIMARY_KEY) {
            HouseholdRepositoryError::HouseholdAlreadyExists
        } else if unique_violation && names_constraint(
            constraint,
            HOUSEHOLDS_PERSONAL_OWNER_UNIQUE_INDEX,
        ) {
            HouseholdRepositoryError::PersonalHouseholdAlreadyExists
        } else {
            HouseholdRepositoryError::Persistence(otherwise)
        },
{
    if unique_violation {
        match constraint {
            Some(c) => {
                if str_equals(c, HOUSEHOLDS_PRIMARY_KEY) {
                    return HouseholdRepositoryError::HouseholdAlreadyExists;
                }
                if str_equals(c, HOUSEHOLDS_PERSONAL_OWNER_UNIQUE_INDEX) {
                    return HouseholdRepositoryError::PersonalHouseholdAlreadyExists;
                }
            },
            None => {},
        }
    }
    HouseholdRepositoryError::Persistence(otherwise)
}

} // verus!
