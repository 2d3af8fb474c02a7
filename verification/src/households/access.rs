//! Who may act on a household: its members, and for some acts only its
//! owner.
use vstd::prelude::*;
use crate::accounts::domain::UserId;
use crate::households::domain::{Household, HouseholdId, HouseholdMember, HouseholdRole, HouseholdView};
use crate::households::in_memory::{HouseholdStoreView, InMemoryHouseholdRepository};
use crate::households::ports::{HouseholdAccessError, HouseholdRepositoryError};
use crate::shared::InternalError;

verus! {

/// What requiring membership answers, given what the store returned for the
/// household and (where it was asked) for the user's membership.
pub open spec fn require_member_outcome(
    household: Result<Option<HouseholdView>, HouseholdRepositoryError>,
    membership: Result<Option<HouseholdMember>, HouseholdRepositoryError>,
) -> Result<HouseholdMember, HouseholdAccessError> {
    match household {
        Err(_) => Err(HouseholdAccessError::Internal(InternalError::Failed)),
        Ok(None) => Err(HouseholdAccessError::HouseholdNotFound),
        Ok(Some(_)) => match membership {
            Err(_) => Err(HouseholdAccessError::Internal(InternalError::Failed)),
            Ok(None) => Err(HouseholdAccessError::Forbidden),
            Ok(Some(member)) => Ok(member),
        },
    }
}

/// What requiring ownership answers, given the same store answers.
pub open spec fn require_owner_outcome(
    household: Result<Option<HouseholdView>, HouseholdRepositoryError>,
    membership: Result<Option<HouseholdMember>, HouseholdRepositoryError>,
) -> Result<HouseholdMember, HouseholdAccessError> {
    match require_member_outcome(household, membership) {
        Ok(member) => if member.spec_role() != HouseholdRole::Owner {
            Err(HouseholdAccessError::Forbidden)
        } else {
            Ok(member)
        },
        Err(e) => Err(e),
    }
}

/// What an in-memory store with state `store` returns for the household
/// `household_id`.
pub open spec fn stored_household(store: HouseholdStoreView, household_id: HouseholdId) -> Result<
    Option<HouseholdView>,
    HouseholdRepositoryError,
> {
    if store.households.contains_key(household_id.value()) {
        Ok(Some(store.households[household_id.value()]))
    } else {
        Ok(None)
    }
}

/// What an in-memory store with state `store` returns for the membership of
/// `user_id` in `household_id`.
pub open spec fn stored_membership(
    store: HouseholdStoreView,
    household_id: HouseholdId,
    user_id: UserId,
) -> Result<Option<HouseholdMember>, HouseholdRepositoryError> {
    if store.members.contains_key((household_id, user_id)) {
        Ok(Some(store.members[(household_id, user_id)]))
    } else {
        Ok(None)
    }
}

/// Grants access to the members of a household, and to its owner for acts
/// that only the owner may do.
pub struct DefaultHouseholdAccessPolicy<R> {
    household_repository: R,
}

impl<R> DefaultHouseholdAccessPolicy<R> {
    pub fn new(household_repository: R) -> (r: DefaultHouseholdAccessPolicy<R>)
        ensures
            r.household_repository() == household_repository,
    {
        DefaultHouseholdAccessPolicy { household_repository }
    }

    pub closed spec fn household_repository(&self) -> R {
        self.household_repository
    }

    /// The store to consult.
    pub fn repository(&self) -> (r: &R)
        ensures
            *r == self.household_repository(),
    {
        &self.household_repository
    }

    /// First step: what the store returned for the household. `Ok` means:
    /// go on and load the user's membership.
    pub fn on_household_found(&self, found: Result<Option<Household>, HouseholdRepositoryError>) -> (r:
        Result<(), HouseholdAccessError>)
        ensures
            match found {
                Err(_) => r == Err::<(), HouseholdAccessError>(
                    HouseholdAccessError::Internal(InternalError::Failed),
                ),
                Ok(None) => r == Err::<(), HouseholdAccessError>(
                    HouseholdAccessError::HouseholdNotFound,
                ),
                Ok(Some(_)) => r is Ok,
            },
    {
        match found {
            Err(_) => Err(HouseholdAccessError::Internal(InternalError::Failed)),
            Ok(None) => Err(HouseholdAccessError::HouseholdNotFound),
            Ok(Some(_)) => Ok(()),
        }
    }

    /// Last step of requiring membership: what the store returned for the
    /// user's membership.
    pub fn on_membership_found(&self, found: Result<Option<HouseholdMember>, HouseholdRepositoryError>) -> (r:
        Result<HouseholdMember, HouseholdAccessError>)
        ensures
            match found {
                Err(_) => r == Err::<HouseholdMember, HouseholdAccessError>(
                    HouseholdAccessError::Internal(InternalError::Failed),
                ),
                Ok(None) => r == Err::<HouseholdMember, HouseholdAccessError>(
                    HouseholdAccessError::Forbidden,
                ),
                Ok(Some(member)) => r == Ok::<HouseholdMember, HouseholdAccessError>(member),
            },
    {
        match found {
            Err(_) => Err(HouseholdAccessError::Internal(InternalError::Failed)),
            Ok(None) => Err(HouseholdAccessError::Forbidden),
            Ok(Some(member)) => Ok(member),
        }
    }

    /// Last step of requiring ownership: the membership that requiring
    /// membership granted must be an owner's.
    pub fn check_owner(&self, member: HouseholdMember) -> (r: Result<HouseholdMember, HouseholdAccessError>)
        ensures
            member.spec_role() == HouseholdRole::Owner ==> r == Ok::<
                HouseholdMember,
                HouseholdAccessError,
            >(member),
            member.spec_role() != HouseholdRole::Owner ==> r == Err::<
                HouseholdMember,
                HouseholdAccessError,
            >(HouseholdAccessError::Forbidden),
    {
        if member.role() != HouseholdRole::Owner {
            return Err(HouseholdAccessError::Forbidden);
        }
        Ok(member)
    }
}

impl DefaultHouseholdAccessPolicy<InMemoryHouseholdRepository> {
    /// The membership of `user_id` in `household_id`, where the household
    /// exists and the user is one of its members.
    pub fn require_member(&self, household_id: &HouseholdId, user_id: &UserId) -> (r: Result<
        HouseholdMember,
        HouseholdAccessError,
    >)
        requires
            self.household_repository().wf(),
        ensures
            r == require_member_outcome(
                stored_household(self.household_repository()@, *household_id),
                stored_membership(self.household_repository()@, *household_id, *user_id),
            ),
            r matches Ok(m) ==> m.spec_household_id() == *household_id && m.spec_user_id()
                == *user_id,
    {
        let found = self.household_repository.find_by_id(household_id);
        self.on_household_found(found)?;
        let membership = self.household_repository.find_member(household_id, user_id);
        self.on_membership_found(membership)
    }

    /// The membership of `user_id` in `household_id`, where the household
    /// exists and the user is its owner.
    pub fn require_owner(&self, household_id: &HouseholdId, user_id: &UserId) -> (r: Result<
        HouseholdMember,
        HouseholdAccessError,
    >)
        requires
            self.household_repository().wf(),
        ensures
            r == require_owner_outcome(
                stored_household(self.household_repository()@, *household_id),
                stored_membership(self.household_repository()@, *household_id, *user_id),
            ),
            r matches Ok(m) ==> m.spec_household_id() == *household_id && m.spec_user_id()
                == *user_id && m.spec_role() == HouseholdRole::Owner,
    {
        let member = self.require_member(household_id, user_id)?;
        self.check_owner(member)
    }
}

/// Against an in-memory store, access goes exactly to the members of
/// existing households, and owner access exactly to their owners: an unknown
/// household is `HouseholdNotFound`, a user without a membership is
/// `Forbidden`.
pub proof fn lemma_access_against_store(store: HouseholdStoreView, household_id: HouseholdId, user_id: UserId)
    ensures
        require_member_outcome(
            stored_household(store, household_id),
            stored_membership(store, household_id, user_id),
        ) == if !store.households.contains_key(household_id.value()) {
            Err::<HouseholdMember, HouseholdAccessError>(HouseholdAccessError::HouseholdNotFound)
        } else if !store.members.contains_key((household_id, user_id)) {
            Err::<HouseholdMember, HouseholdAccessError>(HouseholdAccessError::Forbidden)
        } else {
            Ok::<HouseholdMember, HouseholdAccessError>(store.members[(household_id, user_id)])
        },
        require_owner_outcome(
            stored_household(store, household_id),
            stored_membership(store, household_id, user_id),
        ) is Ok <==> store.households.contains_key(household_id.value())
            && store.members.contains_key((household_id, user_id))
            && store.members[(household_id, user_id)].spec_role() == HouseholdRole::Owner,
{
}

} // verus!
