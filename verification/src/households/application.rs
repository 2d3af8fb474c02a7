//! The household use cases. Each service is written as the decisions it
//! takes between the calls it makes to the store: a caller performs each
//! store call and hands the answer to the next step. Against an in-memory
//! store, `execute` runs the whole use case.
use vstd::prelude::*;
use crate::accounts::domain::UserId;
use crate::households::domain::{
    household_name_outcome, Household, HouseholdId, HouseholdKind, HouseholdMember,
    HouseholdName, HouseholdRole, HouseholdView,
};
use crate::households::access::{
    require_member_outcome, require_owner_outcome, stored_household, stored_membership,
};
use crate::households::in_memory::{
    aggregate_is_consistent, create_with_owner_check, is_household_listing, member_key,
    HouseholdStoreView, InMemoryHouseholdRepository,
};
use crate::households::ports::{HouseholdAccessError, HouseholdRepositoryError};
use crate::shared::{is_drawn_uuid, is_random_uuid, InternalError};
use crate::time::Timestamp;

verus! {

// ------------------------------------------------------------------ creation

pub struct CreateHouseholdCommand {
    pub owner_id: UserId,
    pub name: String,
    pub kind: HouseholdKind,
}

#[derive(Debug, Clone, Copy, PartialEq, Eq, Structural)]
pub enum CreateHouseholdError {
    InvalidName,
    PersonalHouseholdAlreadyExists,
    Internal(InternalError),
}

/// The household that creating with `command` builds under `household_id`
/// at time `now`, given the parsed `name`.
pub open spec fn planned_household(
    owner_id: UserId,
    kind: HouseholdKind,
    name: Seq<char>,
    household_id: HouseholdId,
    now: Timestamp,
) -> HouseholdView {
    HouseholdView {
        id: household_id,
        name,
        kind,
        personal_owner_id: match kind {
            HouseholdKind::Personal => Some(owner_id),
            HouseholdKind::Shared => None,
        },
        created_at: now,
        updated_at: now,
    }
}

/// Whether `owner` is the owner membership that creating a household with
/// this owner builds under `household_id` at time `now`.
pub open spec fn is_planned_owner(
    owner: HouseholdMember,
    owner_id: UserId,
    household_id: HouseholdId,
    now: Timestamp,
) -> bool {
    &&& owner.spec_household_id() == household_id
    &&& owner.spec_user_id() == owner_id
    &&& owner.spec_role() == HouseholdRole::Owner
    &&& owner.spec_created_at() == now
}

/// What creating answers once the household has been handed to the store.
pub open spec fn creation_stored_outcome(
    household_id: HouseholdId,
    created: Result<(), HouseholdRepositoryError>,
) -> Result<HouseholdId, CreateHouseholdError> {
    match created {
        Ok(()) => Ok(household_id),
        Err(HouseholdRepositoryError::PersonalHouseholdAlreadyExists) => Err(
            CreateHouseholdError::PersonalHouseholdAlreadyExists,
        ),
        Err(_) => Err(CreateHouseholdError::Internal(InternalError::Failed)),
    }
}

/// Creates households: a personal household belongs to its creator, and the
/// creator becomes the owner of either kind.
pub struct CreateHouseholdService<R> {
    household_repository: R,
}

impl<R> CreateHouseholdService<R> {
    pub fn new(household_repository: R) -> (r: CreateHouseholdService<R>)
        ensures
            r.household_repository() == household_repository,
    {
        CreateHouseholdService { household_repository }
    }

    pub closed spec fn household_repository(&self) -> R {
        self.household_repository
    }

    /// The store that the household is to be handed to.
    pub fn repository(&self) -> (r: &R)
        ensures
            *r == self.household_repository(),
    {
        &self.household_repository
    }

    /// Builds the household and its owner membership under `household_id`
    /// at time `now`.
    pub fn prepare_at(&self, command: &CreateHouseholdCommand, household_id: HouseholdId, now: Timestamp) -> (r:
        Result<(Household, HouseholdMember), CreateHouseholdError>)
        ensures
            match household_name_outcome(command.name@) {
                Err(_) => r == Err::<(Household, HouseholdMember), CreateHouseholdError>(
                    CreateHouseholdError::InvalidName,
                ),
                Ok(name) => r matches Ok((household, owner)) && household@ == planned_household(
                    command.owner_id,
                    command.kind,
                    name,
                    household_id,
                    now,
                ) && is_planned_owner(owner, command.owner_id, household_id, now),
            },
    {
        let name = match HouseholdName::parse(command.name.as_str()) {
            Ok(name) => name,
            Err(_) => return Err(CreateHouseholdError::InvalidName),
        };
        let personal_owner_id = match command.kind {
            HouseholdKind::Personal => Some(command.owner_id),
            HouseholdKind::Shared => None,
        };
        let household = match Household::new(
            household_id,
            name,
            command.kind,
            personal_owner_id,
            now,
            now,
        ) {
            Ok(household) => household,
            Err(_) => return Err(CreateHouseholdError::Internal(InternalError::Failed)),
        };
        let owner = HouseholdMember::new(household_id, command.owner_id, HouseholdRole::Owner, now);
        Ok((household, owner))
    }

    /// Builds the household and its owner membership under a fresh
    /// identifier at the current time.
    pub fn prepare(&self, command: &CreateHouseholdCommand) -> (r: Result<
        (Household, HouseholdMember),
        CreateHouseholdError,
    >)
        ensures
            match household_name_outcome(command.name@) {
                Err(_) => r == Err::<(Household, HouseholdMember), CreateHouseholdError>(
                    CreateHouseholdError::InvalidName,
                ),
                Ok(name) => r == Err::<(Household, HouseholdMember), CreateHouseholdError>(
                    CreateHouseholdError::Internal(InternalError::Failed),
                ) || (r matches Ok((household, owner)) && household@ == planned_household(
                    command.owner_id,
                    command.kind,
                    name,
                    household@.id,
                    household@.created_at,
                ) && is_planned_owner(owner, command.owner_id, household@.id, household@.created_at)
                    && is_random_uuid(household@.id.value()) && is_drawn_uuid(household@.id.value())),
            },
    {
        if HouseholdName::parse(command.name.as_str()).is_err() {
            return Err(CreateHouseholdError::InvalidName);
        }
        let household_id = match HouseholdId::new() {
            Ok(id) => id,
            Err(_) => return Err(CreateHouseholdError::Internal(InternalError::Failed)),
        };
        let now = Timestamp::now();
        self.prepare_at(command, household_id, now)
    }

    /// What creating answers once the household has been handed to the
    /// store.
    pub fn complete(&self, household_id: HouseholdId, created: Result<(), HouseholdRepositoryError>) -> (r:
        Result<HouseholdId, CreateHouseholdError>)
        ensures
            r == creation_stored_outcome(household_id, created),
    {
        match created {
            Ok(()) => Ok(household_id),
            Err(HouseholdRepositoryError::PersonalHouseholdAlreadyExists) => Err(
                CreateHouseholdError::PersonalHouseholdAlreadyExists,
            ),
            Err(_) => Err(CreateHouseholdError::Internal(InternalError::Failed)),
        }
    }
}

/// What creating `household` with `owner` in an in-memory store answers
/// (`r`), with the store's state before (`before`) and after (`after`).
pub open spec fn creation_effect(
    before: HouseholdStoreView,
    after: HouseholdStoreView,
    household: HouseholdView,
    owner: HouseholdMember,
    r: Result<HouseholdId, CreateHouseholdError>,
) -> bool {
    match create_with_owner_check(before, household, owner) {
        Some(e) => r == creation_stored_outcome(household.id, Err(e)) && after == before,
        None => {
            &&& r == Ok::<HouseholdId, CreateHouseholdError>(household.id)
            &&& after.households == before.households.insert(household.id.value(), household)
            &&& after.members == before.members.insert(member_key()(owner), owner)
        },
    }
}

impl CreateHouseholdService<InMemoryHouseholdRepository> {
    /// Creates the household that `command` asks for, owned by its creator,
    /// under a fresh identifier.
    pub fn execute(&mut self, command: CreateHouseholdCommand) -> (r: Result<HouseholdId, CreateHouseholdError>)
        requires
            old(self).household_repository().wf(),
        ensures
            final(self).household_repository().wf(),
            match household_name_outcome(command.name@) {
                Err(_) => r == Err::<HouseholdId, CreateHouseholdError>(
                    CreateHouseholdError::InvalidName,
                ) && final(self).household_repository()@ == old(self).household_repository()@,
                Ok(name) => (r == Err::<HouseholdId, CreateHouseholdError>(
                    CreateHouseholdError::Internal(InternalError::Failed),
                ) && final(self).household_repository()@ == old(self).household_repository()@)
                    || exists|household_id: HouseholdId, now: Timestamp, owner: HouseholdMember|
                    #![trigger planned_household(command.owner_id, command.kind, name, household_id, now), is_planned_owner(owner, command.owner_id, household_id, now)]
                    {
                        &&& is_random_uuid(household_id.value())
                        &&& is_drawn_uuid(household_id.value())
                        &&& is_planned_owner(owner, command.owner_id, household_id, now)
                        &&& creation_effect(
                            old(self).household_repository()@,
                            final(self).household_repository()@,
                            planned_household(command.owner_id, command.kind, name, household_id, now),
                            owner,
                            r,
                        )
                    },
            },
    {
        let (household, owner) = self.prepare(&command)?;
        let household_id = household.id();
        let created = self.household_repository.create_with_owner(&household, &owner);
        let r = self.complete(household_id, created);
        proof {
            let name = household@.name;
            assert(is_planned_owner(owner, command.owner_id, household_id, household@.created_at));
            assert(planned_household(command.owner_id, command.kind, name, household_id, household@.created_at) == household@);
        }
        r
    }
}

/// The household and owner membership that creation builds always pass the
/// store's consistency check.
pub proof fn lemma_planned_household_is_consistent(
    owner_id: UserId,
    kind: HouseholdKind,
    name: Seq<char>,
    household_id: HouseholdId,
    now: Timestamp,
    owner: HouseholdMember,
)
    requires
        is_planned_owner(owner, owner_id, household_id, now),
    ensures
        aggregate_is_consistent(planned_household(owner_id, kind, name, household_id, now), owner),
{
}

/// A household planned for a valid name is created whenever the store has
/// no household under its identifier and, for a personal household, no
/// personal household of its owner: the answer is its identifier, the
/// owner reads it back, and every household stored before is kept.
pub proof fn lemma_valid_name_is_created(
    before: HouseholdStoreView,
    after: HouseholdStoreView,
    owner_id: UserId,
    kind: HouseholdKind,
    name: Seq<char>,
    household_id: HouseholdId,
    now: Timestamp,
    owner: HouseholdMember,
    r: Result<HouseholdId, CreateHouseholdError>,
    k: u128,
)
    requires
        is_planned_owner(owner, owner_id, household_id, now),
        !before.households.contains_key(household_id.value()),
        kind == HouseholdKind::Personal ==> !(exists|j: u128|
            before.households.contains_key(j) && (#[trigger] before.households[j]).is_personal_of(
                owner_id,
            )),
        creation_effect(
            before,
            after,
            planned_household(owner_id, kind, name, household_id, now),
            owner,
            r,
        ),
    ensures
        r == Ok::<HouseholdId, CreateHouseholdError>(household_id),
        get_household_outcome(
            stored_household(after, household_id),
            stored_membership(after, household_id, owner_id),
        ) == Ok::<HouseholdView, GetHouseholdError>(
            planned_household(owner_id, kind, name, household_id, now),
        ),
        before.households.contains_key(k) ==> after.households.contains_key(k)
            && after.households[k] == before.households[k],
{
    crate::households::in_memory::lemma_personal_refusal_is_per_owner(
        before,
        planned_household(owner_id, kind, name, household_id, now),
        owner,
    );
}

// ------------------------------------------------------------------- reading

pub struct GetHouseholdCommand {
    pub household_id: HouseholdId,
    pub user_id: UserId,
}

#[derive(Debug, Clone, Copy, PartialEq, Eq, Structural)]
pub enum GetHouseholdError {
    NotFound,
    Forbidden,
    Internal(InternalError),
}

/// What reading a household answers, given what the store returned for the
/// household and (where it was asked) for the reader's membership.
pub open spec fn get_household_outcome(
    found: Result<Option<HouseholdView>, HouseholdRepositoryError>,
    membership: Result<Option<HouseholdMember>, HouseholdRepositoryError>,
) -> Result<HouseholdView, GetHouseholdError> {
    match found {
        Err(_) => Err(GetHouseholdError::Internal(InternalError::Failed)),
        Ok(None) => Err(GetHouseholdError::NotFound),
        Ok(Some(household)) => match membership {
            Err(_) => Err(GetHouseholdError::Internal(InternalError::Failed)),
            Ok(None) => Err(GetHouseholdError::Forbidden),
            Ok(Some(_)) => Ok(household),
        },
    }
}

/// Reads a household for one of its members.
pub struct GetHouseholdService<R> {
    household_repository: R,
}

impl<R> GetHouseholdService<R> {
    pub fn new(household_repository: R) -> (r: GetHouseholdService<R>)
        ensures
            r.household_repository() == household_repository,
    {
        GetHouseholdService { household_repository }
    }

    pub closed spec fn household_repository(&self) -> R {
        self.household_repository
    }

    /// The store to read from.
    pub fn repository(&self) -> (r: &R)
        ensures
            *r == self.household_repository(),
    {
        &self.household_repository
    }

    /// First step: what the store returned for the household.
    pub fn on_household_found(&self, found: Result<Option<Household>, HouseholdRepositoryError>) -> (r:
        Result<Household, GetHouseholdError>)
        ensures
            match found {
                Err(_) => r == Err::<Household, GetHouseholdError>(
                    GetHouseholdError::Internal(InternalError::Failed),
                ),
                Ok(None) => r == Err::<Household, GetHouseholdError>(GetHouseholdError::NotFound),
                Ok(Some(household)) => r == Ok::<Household, GetHouseholdError>(household),
            },
    {
        match found {
            Err(_) => Err(GetHouseholdError::Internal(InternalError::Failed)),
            Ok(None) => Err(GetHouseholdError::NotFound),
            Ok(Some(household)) => Ok(household),
        }
    }

    /// Last step: what the store returned for the reader's membership of the
    /// household found.
    pub fn on_membership_found(
        &self,
        household: Household,
        membership: Result<Option<HouseholdMember>, HouseholdRepositoryError>,
    ) -> (r: Result<Household, GetHouseholdError>)
        ensures
            match membership {
                Err(_) => r == Err::<Household, GetHouseholdError>(
                    GetHouseholdError::Internal(InternalError::Failed),
                ),
                Ok(None) => r == Err::<Household, GetHouseholdError>(GetHouseholdError::Forbidden),
                Ok(Some(_)) => r == Ok::<Household, GetHouseholdError>(household),
            },
    {
        match membership {
            Err(_) => Err(GetHouseholdError::Internal(InternalError::Failed)),
            Ok(None) => Err(GetHouseholdError::Forbidden),
            Ok(Some(_)) => Ok(household),
        }
    }
}

impl GetHouseholdService<InMemoryHouseholdRepository> {
    /// The household `command.household_id`, read for `command.user_id`,
    /// who must be one of its members.
    pub fn execute(&self, command: GetHouseholdCommand) -> (r: Result<Household, GetHouseholdError>)
        requires
            self.household_repository().wf(),
        ensures
            ({
                let outcome = get_household_outcome(
                    stored_household(self.household_repository()@, command.household_id),
                    stored_membership(
                        self.household_repository()@,
                        command.household_id,
                        command.user_id,
                    ),
                );
                match r {
                    Ok(household) => outcome == Ok::<HouseholdView, GetHouseholdError>(household@),
                    Err(e) => outcome == Err::<HouseholdView, GetHouseholdError>(e),
                }
            }),
    {
        let found = self.household_repository.find_by_id(&command.household_id);
        let household = self.on_household_found(found)?;
        let membership = self.household_repository.find_member(&command.household_id, &command.user_id);
        self.on_membership_found(household, membership)
    }
}

// ------------------------------------------------------------------- listing

pub struct ListHouseholdsForUserCommand {
    pub user_id: UserId,
}

/// Lists the households of which a user is a member.
pub struct ListHouseholdsForUserService<R> {
    household_repository: R,
}

impl<R> ListHouseholdsForUserService<R> {
    pub fn new(household_repository: R) -> (r: ListHouseholdsForUserService<R>)
        ensures
            r.household_repository() == household_repository,
    {
        ListHouseholdsForUserService { household_repository }
    }

    pub closed spec fn household_repository(&self) -> R {
        self.household_repository
    }

    /// The store to read from.
    pub fn repository(&self) -> (r: &R)
        ensures
            *r == self.household_repository(),
    {
        &self.household_repository
    }

    /// What listing answers, given what the store returned.
    pub fn complete(&self, found: Result<Vec<Household>, HouseholdRepositoryError>) -> (r: Result<
        Vec<Household>,
        InternalError,
    >)
        ensures
            match found {
                Ok(households) => r == Ok::<Vec<Household>, InternalError>(households),
                Err(_) => r == Err::<Vec<Household>, InternalError>(InternalError::Failed),
            },
    {
        match found {
            Ok(households) => Ok(households),
            Err(_) => Err(InternalError::Failed),
        }
    }
}

impl ListHouseholdsForUserService<InMemoryHouseholdRepository> {
    /// The households of which `command.user_id` is a member.
    pub fn execute(&self, command: ListHouseholdsForUserCommand) -> (r: Result<Vec<Household>, InternalError>)
        requires
            self.household_repository().wf(),
        ensures
            r matches Ok(found) && is_household_listing(
                self.household_repository()@,
                command.user_id,
                found@,
            ),
    {
        let found = self.household_repository.find_for_user(&command.user_id);
        self.complete(found)
    }
}

// ------------------------------------------------------------ member removal

pub struct RemoveHouseholdMemberCommand {
    pub requester_id: UserId,
    pub household_id: HouseholdId,
    pub member_id: UserId,
}

#[derive(Debug, Clone, Copy, PartialEq, Eq, Structural)]
pub enum RemoveHouseholdMemberError {
    HouseholdNotFound,
    Forbidden,
    MemberNotFound,
    OwnerCannotBeRemoved,
    Internal(InternalError),
}

/// Whether a requester with membership `requester` may remove the member
/// `member_id`: members may remove themselves, owners may remove anyone.
pub open spec fn may_remove(requester_id: UserId, requester: HouseholdMember, member_id: UserId) -> bool {
    requester_id == member_id || requester.spec_role() == HouseholdRole::Owner
}

/// What removing a member answers, given in turn what the store returned for
/// the household, the requester's membership, the target's membership, and
/// the removal itself; each answer matters only where the steps before it
/// went on.
pub open spec fn remove_member_outcome(
    requester_id: UserId,
    member_id: UserId,
    household: Result<Option<HouseholdView>, HouseholdRepositoryError>,
    requester: Result<Option<HouseholdMember>, HouseholdRepositoryError>,
    target: Result<Option<HouseholdMember>, HouseholdRepositoryError>,
    removed: Result<(), HouseholdRepositoryError>,
) -> Result<(), RemoveHouseholdMemberError> {
    match household {
        Err(_) => Err(RemoveHouseholdMemberError::Internal(InternalError::Failed)),
        Ok(None) => Err(RemoveHouseholdMemberError::HouseholdNotFound),
        Ok(Some(_)) => match requester {
            Err(_) => Err(RemoveHouseholdMemberError::Internal(InternalError::Failed)),
            Ok(None) => Err(RemoveHouseholdMemberError::Forbidden),
            Ok(Some(requester)) => if !may_remove(requester_id, requester, member_id) {
                Err(RemoveHouseholdMemberError::Forbidden)
            } else {
                match target {
                    Err(_) => Err(RemoveHouseholdMemberError::Internal(InternalError::Failed)),
                    Ok(None) => Err(RemoveHouseholdMemberError::MemberNotFound),
                    Ok(Some(target)) => if target.spec_role() == HouseholdRole::Owner {
                        Err(RemoveHouseholdMemberError::OwnerCannotBeRemoved)
                    } else {
                        match removed {
                            Ok(()) => Ok(()),
                            Err(HouseholdRepositoryError::MemberNotFound) => Err(
                                RemoveHouseholdMemberError::MemberNotFound,
                            ),
                            Err(_) => Err(RemoveHouseholdMemberError::Internal(InternalError::Failed)),
                        }
                    },
                }
            },
        },
    }
}

/// Removes members from households. A member may leave; the owner may remove
/// anyone but the owner.
pub struct RemoveHouseholdMemberService<R> {
    household_repository: R,
}

impl<R> RemoveHouseholdMemberService<R> {
    pub fn new(household_repository: R) -> (r: RemoveHouseholdMemberService<R>)
        ensures
            r.household_repository() == household_repository,
    {
        RemoveHouseholdMemberService { household_repository }
    }

    pub closed spec fn household_repository(&self) -> R {
        self.household_repository
    }

    /// The store to work on.
    pub fn repository(&self) -> (r: &R)
        ensures
            *r == self.household_repository(),
    {
        &self.household_repository
    }

    /// First step: what the store returned for the household. `Ok` means:
    /// go on and load the requester's membership.
    pub fn on_household_found(&self, found: Result<Option<Household>, HouseholdRepositoryError>) -> (r:
        Result<(), RemoveHouseholdMemberError>)
        ensures
            match found {
                Err(_) => r == Err::<(), RemoveHouseholdMemberError>(
                    RemoveHouseholdMemberError::Internal(InternalError::Failed),
                ),
                Ok(None) => r == Err::<(), RemoveHouseholdMemberError>(
                    RemoveHouseholdMemberError::HouseholdNotFound,
                ),
                Ok(Some(_)) => r is Ok,
            },
    {
        match found {
            Err(_) => Err(RemoveHouseholdMemberError::Internal(InternalError::Failed)),
            Ok(None) => Err(RemoveHouseholdMemberError::HouseholdNotFound),
            Ok(Some(_)) => Ok(()),
        }
    }

    /// Second step: what the store returned for the requester's membership.
    /// `Ok` means: go on and load the target's membership.
    pub fn on_requester_found(
        &self,
        command: &RemoveHouseholdMemberCommand,
        found: Result<Option<HouseholdMember>, HouseholdRepositoryError>,
    ) -> (r: Result<(), RemoveHouseholdMemberError>)
        ensures
            match found {
                Err(_) => r == Err::<(), RemoveHouseholdMemberError>(
                    RemoveHouseholdMemberError::Internal(InternalError::Failed),
                ),
                Ok(None) => r == Err::<(), RemoveHouseholdMemberError>(
                    RemoveHouseholdMemberError::Forbidden,
                ),
                Ok(Some(requester)) => if may_remove(
                    command.requester_id,
                    requester,
                    command.member_id,
                ) {
                    r is Ok
                } else {
                    r == Err::<(), RemoveHouseholdMemberError>(
                        RemoveHouseholdMemberError::Forbidden,
                    )
                },
            },
    {
        let requester = match found {
            Err(_) => return Err(RemoveHouseholdMemberError::Internal(InternalError::Failed)),
            Ok(None) => return Err(RemoveHouseholdMemberError::Forbidden),
            Ok(Some(requester)) => requester,
        };
        if !(command.requester_id == command.member_id) && requester.role()
            != HouseholdRole::Owner {
            return Err(RemoveHouseholdMemberError::Forbidden);
        }
        Ok(())
    }

    /// Third step: what the store returned for the target's membership.
    /// `Ok` means: go on and remove it.
    pub fn on_target_found(&self, found: Result<Option<HouseholdMember>, HouseholdRepositoryError>) -> (r:
        Result<(), RemoveHouseholdMemberError>)
        ensures
            match found {
                Err(_) => r == Err::<(), RemoveHouseholdMemberError>(
                    RemoveHouseholdMemberError::Internal(InternalError::Failed),
                ),
                Ok(None) => r == Err::<(), RemoveHouseholdMemberError>(
                    RemoveHouseholdMemberError::MemberNotFound,
                ),
                Ok(Some(target)) => if target.spec_role() == HouseholdRole::Owner {
                    r == Err::<(), RemoveHouseholdMemberError>(
                        RemoveHouseholdMemberError::OwnerCannotBeRemoved,
                    )
                } else {
                    r is Ok
                },
            },
    {
        let target = match found {
            Err(_) => return Err(RemoveHouseholdMemberError::Internal(InternalError::Failed)),
            Ok(None) => return Err(RemoveHouseholdMemberError::MemberNotFound),
            Ok(Some(target)) => target,
        };
        if target.role() == HouseholdRole::Owner {
            return Err(RemoveHouseholdMemberError::OwnerCannotBeRemoved);
        }
        Ok(())
    }

    /// Last step: what the store answered to the removal.
    pub fn on_removed(&self, removed: Result<(), HouseholdRepositoryError>) -> (r: Result<
        (),
        RemoveHouseholdMemberError,
    >)
        ensures
            match removed {
                Ok(()) => r == Ok::<(), RemoveHouseholdMemberError>(()),
                Err(HouseholdRepositoryError::MemberNotFound) => r == Err::<
                    (),
                    RemoveHouseholdMemberError,
                >(RemoveHouseholdMemberError::MemberNotFound),
                Err(_) => r == Err::<(), RemoveHouseholdMemberError>(
                    RemoveHouseholdMemberError::Internal(InternalError::Failed),
                ),
            },
    {
        match removed {
            Ok(()) => Ok(()),
            Err(HouseholdRepositoryError::MemberNotFound) => Err(
                RemoveHouseholdMemberError::MemberNotFound,
            ),
            Err(_) => Err(RemoveHouseholdMemberError::Internal(InternalError::Failed)),
        }
    }
}

impl RemoveHouseholdMemberService<InMemoryHouseholdRepository> {
    /// Removes `command.member_id` from `command.household_id` on behalf of
    /// `command.requester_id`.
    pub fn execute(&mut self, command: RemoveHouseholdMemberCommand) -> (r: Result<(), RemoveHouseholdMemberError>)
        requires
            old(self).household_repository().wf(),
        ensures
            final(self).household_repository().wf(),
            r == remove_member_outcome(
                command.requester_id,
                command.member_id,
                stored_household(old(self).household_repository()@, command.household_id),
                stored_membership(
                    old(self).household_repository()@,
                    command.household_id,
                    command.requester_id,
                ),
                stored_membership(
                    old(self).household_repository()@,
                    command.household_id,
                    command.member_id,
                ),
                Ok(()),
            ),
            r is Ok ==> final(self).household_repository()@ == (HouseholdStoreView {
                households: old(self).household_repository()@.households,
                members: old(self).household_repository()@.members.remove(
                    (command.household_id, command.member_id),
                ),
            }),
            r is Err ==> final(self).household_repository()@ == old(self).household_repository()@,
    {
        let found = self.household_repository.find_by_id(&command.household_id);
        self.on_household_found(found)?;
        let requester = self.household_repository.find_member(&command.household_id, &command.requester_id);
        self.on_requester_found(&command, requester)?;
        let target = self.household_repository.find_member(&command.household_id, &command.member_id);
        self.on_target_found(target)?;
        let removed = self.household_repository.remove_member(&command.household_id, &command.member_id);
        self.on_removed(removed)
    }
}

/// Removal succeeds only where the household exists, the requester is a
/// member who removes themself or is an owner, and the target is a member
/// who is not an owner; so an owner is never removed, and a plain member
/// removes no one but themself.
pub proof fn lemma_removal_rules(
    requester_id: UserId,
    member_id: UserId,
    household: Result<Option<HouseholdView>, HouseholdRepositoryError>,
    requester: Result<Option<HouseholdMember>, HouseholdRepositoryError>,
    target: Result<Option<HouseholdMember>, HouseholdRepositoryError>,
    removed: Result<(), HouseholdRepositoryError>,
)
    ensures
        remove_member_outcome(requester_id, member_id, household, requester, target, removed) is Ok
            ==> {
            &&& household matches Ok(Some(_))
            &&& (requester matches Ok(Some(r)) && may_remove(requester_id, r, member_id))
            &&& (target matches Ok(Some(t)) && t.spec_role() != HouseholdRole::Owner)
            &&& removed is Ok
        },
        target matches Ok(Some(t)) && t.spec_role() == HouseholdRole::Owner ==> remove_member_outcome(
            requester_id,
            member_id,
            household,
            requester,
            target,
            removed,
        ) is Err,
{
}

/// Once a household has been created with its owner, the owner reads it
/// back unchanged and has owner access to it.
pub proof fn lemma_created_household_is_accessible(
    before: HouseholdStoreView,
    household: HouseholdView,
    owner: HouseholdMember,
)
    requires
        create_with_owner_check(before, household, owner) is None,
    ensures
        ({
            let after = HouseholdStoreView {
                households: before.households.insert(household.id.value(), household),
                members: before.members.insert(member_key()(owner), owner),
            };
            &&& get_household_outcome(
                stored_household(after, household.id),
                stored_membership(after, household.id, owner.spec_user_id()),
            ) == Ok::<HouseholdView, GetHouseholdError>(household)
            &&& require_owner_outcome(
                stored_household(after, household.id),
                stored_membership(after, household.id, owner.spec_user_id()),
            ) == Ok::<HouseholdMember, HouseholdAccessError>(owner)
        }),
{
}

/// Once a member has been removed from a household, they can no longer read
/// it nor act in it, and every other membership of the household is kept.
pub proof fn lemma_removed_member_loses_access(
    before: HouseholdStoreView,
    household_id: HouseholdId,
    member_id: UserId,
    other_id: UserId,
)
    ensures
        ({
            let after = HouseholdStoreView {
                households: before.households,
                members: before.members.remove((household_id, member_id)),
            };
            &&& get_household_outcome(
                stored_household(after, household_id),
                stored_membership(after, household_id, member_id),
            ) is Err
            &&& require_member_outcome(
                stored_household(after, household_id),
                stored_membership(after, household_id, member_id),
            ) is Err
            &&& other_id != member_id ==> stored_membership(after, household_id, other_id)
                == stored_membership(before, household_id, other_id)
        }),
{
}

} // verus!
