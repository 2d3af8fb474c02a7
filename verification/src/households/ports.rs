//! Errors reported by the household store and the access policy.
use vstd::prelude::*;
use crate::shared::{InternalError, PersistenceError};

verus! {

#[derive(Debug, Clone, Copy, PartialEq, Eq, Structural)]
pub enum HouseholdAccessError {
    HouseholdNotFound,
    Forbidden,
    Internal(InternalError),
}

#[derive(Debug, Clone, Copy, PartialEq, Eq, Structural)]
pub enum HouseholdRepositoryError {
    PersonalHouseholdAlreadyExists,
    InvalidStoredData,
    InvalidAggregate,
    HouseholdAlreadyExists,
    MemberNotFound,
    Persistence(PersistenceError),
}

impl From<PersistenceError> for HouseholdRepositoryError {
    fn from(error: PersistenceError) -> (r: HouseholdRepositoryError) {
        HouseholdRepositoryError::Persistence(error)
    }
}

impl vstd::std_specs::convert::FromSpecImpl<PersistenceError> for HouseholdRepositoryError {
    open spec fn obeys_from_spec() -> bool {
        true
    }

    open spec fn from_spec(error: PersistenceError) -> HouseholdRepositoryError {
        HouseholdRepositoryError::Persistence(error)
    }
}

} // verus!
