//! The shapes in which the HTTP layer of the households module receives and
//! answers requests, and how a household is rendered in them.
use vstd::prelude::*;
use crate::households::domain::{household_kind_text, Household, HouseholdId};
use crate::shared::{uuid_hyphenated, uuid_text};

verus! {

pub struct CreateHouseholdRequest {
    pub name: String,
    pub kind: String,
}

pub struct CreateHouseholdResponse {
    pub id: String,
}

pub struct HouseholdResponse {
    pub id: String,
    pub name: String,
    pub kind: String,
}

pub struct AddHouseholdMemberRequest {
    pub email: String,
}

pub struct HouseholdMemberResponse {
    pub user_id: String,
    pub display_name: String,
    pub role: String,
}

pub struct RenameHouseholdRequest {
    pub name: String,
}

impl CreateHouseholdResponse {
    /// The answer to a successful creation.
    pub fn for_household(household_id: HouseholdId) -> (r: CreateHouseholdResponse)
        ensures
            r.id@ == uuid_hyphenated(household_id.value()),
    {
        CreateHouseholdResponse { id: uuid_text(household_id.as_uuid()) }
    }
}

impl HouseholdResponse {
    /// How `household` is listed: its identifier in hyphenated form, its
    /// name, and its kind as stored.
    pub fn from_household(household: &Household) -> (r: HouseholdResponse)
        ensures
            r.id@ == uuid_hyphenated(household@.id.value()),
            r.name@ == household@.name,
            r.kind@ == household_kind_text(household@.kind),
    {
        HouseholdResponse {
            id: uuid_text(household.id().as_uuid()),
            name: household.name().as_str().to_owned(),
            kind: household.kind().as_str().to_owned(),
        }
    }
}

} // verus!
