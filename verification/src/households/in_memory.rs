//! A store of households and memberships kept in memory, and the consistency
//! check that every store applies to a new household.
use std::collections::HashMap;
use vstd::prelude::*;
use crate::accounts::domain::UserId;
use crate::households::domain::{
    lemma_household_id_value_injective, Household, HouseholdId, HouseholdKind, HouseholdMember, HouseholdRole, HouseholdView,
};
use crate::households::ports::HouseholdRepositoryError;
use crate::keyed::{
    index_map, keys_unique, lemma_index_map_dom, lemma_index_map_remove, lemma_index_map_value,
    lemma_keys_unique_push,
};

verus! {

broadcast use {vstd::std_specs::hash::group_hash_axioms, lemma_household_id_value_injective};

/// Whether `owner` is a fitting owner membership for `household`: it is an
/// owner's membership of that household, and a personal household is owned by
/// its personal owner.
pub open spec fn aggregate_is_consistent(household: HouseholdView, owner: HouseholdMember) -> bool {
    &&& owner.spec_household_id() == household.id
    &&& owner.spec_role() == HouseholdRole::Owner
    &&& household.kind == HouseholdKind::Personal ==> household.personal_owner_id == Some(
        owner.spec_user_id(),
    )
}

/// Checks that `owner` is a fitting owner membership for `household`.
pub fn validate_aggregate(household: &Household, owner: &HouseholdMember) -> (r: Result<
    (),
    HouseholdRepositoryError,
>)
    ensures
        r is Ok <==> aggregate_is_consistent(household@, *owner),
        r is Err ==> r == Err::<(), HouseholdRepositoryError>(
            HouseholdRepositoryError::InvalidAggregate,
        ),
{
    if owner.household_id() != household.id() {
        return Err(HouseholdRepositoryError::InvalidAggregate);
    }
    if owner.role() != HouseholdRole::Owner {
        return Err(HouseholdRepositoryError::InvalidAggregate);
    }
    if household.kind() == HouseholdKind::Personal && household.personal_owner_id() != Some(
        owner.user_id(),
    ) {
        return Err(HouseholdRepositoryError::InvalidAggregate);
    }
    Ok(())
}

/// A membership is filed under its household and its user.
pub open spec fn member_key() -> spec_fn(HouseholdMember) -> (HouseholdId, UserId) {
    |m: HouseholdMember| (m.spec_household_id(), m.spec_user_id())
}

/// Whether `households` holds a personal household of `user_id`.
pub open spec fn has_personal_household(households: Map<u128, HouseholdView>, user_id: UserId) -> bool {
    exists|k: u128| households.contains_key(k) && (#[trigger] households[k]).is_personal_of(user_id)
}

/// What `create_with_owner` decides for `household` and `owner` in a store
/// with state `store`: `None` where it stores them, else the error.
pub open spec fn create_with_owner_check(
    store: HouseholdStoreView,
    household: HouseholdView,
    owner: HouseholdMember,
) -> Option<HouseholdRepositoryError> {
    if !aggregate_is_consistent(household, owner) {
        Some(HouseholdRepositoryError::InvalidAggregate)
    } else if household.kind == HouseholdKind::Personal && has_personal_household(
        store.households,
        owner.spec_user_id(),
    ) {
        Some(HouseholdRepositoryError::PersonalHouseholdAlreadyExists)
    } else if store.households.contains_key(household.id.value()) {
        Some(HouseholdRepositoryError::HouseholdAlreadyExists)
    } else {
        None
    }
}

/// Whether `found` lists the households of `user_id` in a store with state
/// `store`: each stored household of which the user is a member, once, in
/// any order.
pub open spec fn is_household_listing(store: HouseholdStoreView, user_id: UserId, found: Seq<Household>) -> bool {
    &&& forall|i: int|
        #![trigger found[i]]
        0 <= i < found.len() ==> {
            &&& store.households.contains_key(found[i]@.id.value())
            &&& store.households[found[i]@.id.value()] == found[i]@
            &&& store.members.contains_key((found[i]@.id, user_id))
        }
    &&& forall|hid: HouseholdId|
        #![trigger store.members.dom().contains((hid, user_id))]
        store.members.contains_key((hid, user_id)) && store.households.contains_key(hid.value())
            ==> exists|i: int| 0 <= i < found.len() && #[trigger] found[i]@.id == hid
    &&& forall|i: int, j: int|
        0 <= i < j < found.len() ==> #[trigger] found[i]@.id != #[trigger] found[j]@.id
}

/// The abstract state of a household store.
pub struct HouseholdStoreView {
    pub households: Map<u128, HouseholdView>,
    pub members: Map<(HouseholdId, UserId), HouseholdMember>,
}

/// A household store: households are filed under their identifiers,
/// memberships under their household and user, and no user has two personal
/// households. Households sit in a `HashMap` keyed by their `u128`
/// identifier; memberships, keyed by a pair of identifiers, sit in a `Vec`
/// whose keys are unique, since vstd gives a hash-table key model to
/// integer, `bool` and boxed keys only, not to pairs.
pub struct InMemoryHouseholdRepository {
    households: HashMap<u128, Household>,
    members: Vec<HouseholdMember>,
}

impl View for InMemoryHouseholdRepository {
    type V = HouseholdStoreView;

    closed spec fn view(&self) -> HouseholdStoreView {
        HouseholdStoreView {
            households: self.households@.map_values(|h: Household| h@),
            members: index_map(self.members@, member_key()),
        }
    }
}

impl InMemoryHouseholdRepository {
    /// The store is consistent.
    pub closed spec fn wf(&self) -> bool {
        &&& forall|k: u128| #[trigger]
            self.households@.contains_key(k) ==> self.households@[k]@.id.value() == k
        &&& forall|k1: u128, k2: u128, u: UserId|
            #![trigger self.households@[k1]@.is_personal_of(u), self.households@[k2]@.is_personal_of(u)]
            self.households@.contains_key(k1) && self.households@.contains_key(k2)
                && self.households@[k1]@.is_personal_of(u) && self.households@[k2]@.is_personal_of(u)
                ==> k1 == k2
        &&& keys_unique(self.members@, member_key())
    }

    pub fn new() -> (r: InMemoryHouseholdRepository)
        ensures
            r.wf(),
            r@.households == Map::<u128, HouseholdView>::empty(),
            r@.members == Map::<(HouseholdId, UserId), HouseholdMember>::empty(),
    {
        let r = InMemoryHouseholdRepository { households: HashMap::new(), members: Vec::new() };
        assert(r@.households =~= Map::<u128, HouseholdView>::empty());
        assert(r@.members =~= Map::<(HouseholdId, UserId), HouseholdMember>::empty());
        r
    }

    /// Stores a new household together with its owner's membership.
    pub fn create_with_owner(&mut self, household: &Household, owner: &HouseholdMember) -> (r:
        Result<(), HouseholdRepositoryError>)
        requires
            old(self).wf(),
        ensures
            final(self).wf(),
            r == Err::<(), HouseholdRepositoryError>(
                HouseholdRepositoryError::PersonalHouseholdAlreadyExists,
            ) ==> household@.kind == HouseholdKind::Personal && exists|k: u128|
                old(self)@.households.contains_key(k) && (#[trigger] old(
                self,
            )@.households[k]).is_personal_of(owner.spec_user_id()),
            match create_with_owner_check(old(self)@, household@, *owner) {
                Some(e) => r == Err::<(), HouseholdRepositoryError>(e) && final(self)@ == old(self)@,
                None => r is Ok && final(self)@.households == old(self)@.households.insert(
                    household@.id.value(),
                    household@,
                ) && final(self)@.members == old(self)@.members.insert(
                    member_key()(*owner),
                    *owner,
                ),
            },
    {
        validate_aggregate(household, owner)?;
        if household.kind() == HouseholdKind::Personal {
            match self.key_of_personal(owner.user_id()) {
                Some(k) => {
                    assert(self@.households[k].is_personal_of(owner.spec_user_id()));
                    return Err(HouseholdRepositoryError::PersonalHouseholdAlreadyExists);
                },
                None => {},
            }
        }
        if self.households.contains_key(&household.id().as_uuid()) {
            return Err(HouseholdRepositoryError::HouseholdAlreadyExists);
        }
        let ghost old_households = self.households@;
        let ghost old_view = self@;
        self.households.insert(household.id().into_uuid(), household.clone());
        proof {
            assert(self@.households =~= old_view.households.insert(household@.id.value(), household@));
            assert forall|k1: u128, k2: u128, u: UserId|
                self.households@.contains_key(k1) && self.households@.contains_key(k2)
                    && self.households@[k1]@.is_personal_of(u) && self.households@[k2]@.is_personal_of(u)
                    implies k1 == k2 by {
                let k = household@.id.value();
                if k1 != k && k2 == k {
                    assert(old_view.households[k1].is_personal_of(u));
                    assert(has_personal_household(old_view.households, u));
                } else if k1 == k && k2 != k {
                    assert(old_view.households[k2].is_personal_of(u));
                    assert(has_personal_household(old_view.households, u));
                } else if k1 != k && k2 != k {
                    assert(old_households[k1]@.is_personal_of(u));
                    assert(old_households[k2]@.is_personal_of(u));
                }
            }
        }
        self.put_member(*owner);
        Ok(())
    }

    /// Files `member`, replacing a membership with the same household and user.
    fn put_member(&mut self, member: HouseholdMember)
        requires
            old(self).wf(),
        ensures
            final(self).wf(),
            final(self).households@ == old(self).households@,
            final(self)@.households == old(self)@.households,
            final(self)@.members == old(self)@.members.insert(member_key()(member), member),
    {
        let ghost original = self@.members;
        match self.position_of_member(member.household_id(), member.user_id()) {
            Some(i) => {
                let ghost before = self.members@;
                self.members.remove(i);
                proof {
                    lemma_index_map_remove(before, member_key(), i as int);
                }
            },
            None => {
                assert(original.remove(member_key()(member)) =~= original);
            },
        }
        let ghost before = self.members@;
        proof {
            lemma_index_map_dom(before, member_key(), member_key()(member));
            assert(!index_map(before, member_key()).contains_key(member_key()(member)));
        }
        self.members.push(member);
        proof {
            lemma_keys_unique_push(before, member_key(), member);
            assert(self.members@.drop_last() =~= before);
            assert(self@.members =~= original.insert(member_key()(member), member));
        }
    }

    /// The household with this identifier, if one is stored.
    pub fn find_by_id(&self, id: &HouseholdId) -> (r: Result<Option<Household>, HouseholdRepositoryError>)
        ensures
            r matches Ok(found) && match found {
                Some(h) => self@.households.contains_key(id.value()) && h@ == self@.households[id.value()],
                None => !self@.households.contains_key(id.value()),
            },
    {
        match self.households.get(&id.as_uuid()) {
            Some(h) => Ok(Some(h.clone())),
            None => Ok(None),
        }
    }

    /// The personal household of `owner`, if there is one.
    pub fn find_personal_by_owner(&self, owner: &UserId) -> (r: Result<
        Option<Household>,
        HouseholdRepositoryError,
    >)
        requires
            self.wf(),
        ensures
            r matches Ok(found) && match found {
                Some(h) => self@.households.contains_key(h@.id.value()) && self@.households[h@.id.value()]
                    == h@ && h@.is_personal_of(*owner),
                None => !has_personal_household(self@.households, *owner),
            },
    {
        match self.key_of_personal(*owner) {
            Some(k) => {
                let h = self.households.get(&k).unwrap();
                Ok(Some(h.clone()))
            },
            None => Ok(None),
        }
    }

    /// The membership of `user_id` in `household_id`, if there is one.
    pub fn find_member(&self, household_id: &HouseholdId, user_id: &UserId) -> (r: Result<
        Option<HouseholdMember>,
        HouseholdRepositoryError,
    >)
        requires
            self.wf(),
        ensures
            r matches Ok(found) && match found {
                Some(m) => self@.members.contains_key((*household_id, *user_id))
                    && m == self@.members[(*household_id, *user_id)]
                    && m.spec_household_id() == *household_id && m.spec_user_id() == *user_id,
                None => !self@.members.contains_key((*household_id, *user_id)),
            },
    {
        match self.position_of_member(*household_id, *user_id) {
            Some(i) => {
                proof {
                    lemma_index_map_value(self.members@, member_key(), i as int);
                }
                Ok(Some(self.members[i]))
            },
            None => Ok(None),
        }
    }

    /// Files a membership, replacing one of the same user in the same
    /// household.
    pub fn add_member(&mut self, member: &HouseholdMember) -> (r: Result<(), HouseholdRepositoryError>)
        requires
            old(self).wf(),
        ensures
            final(self).wf(),
            r is Ok,
            final(self)@.households == old(self)@.households,
            final(self)@.members == old(self)@.members.insert(member_key()(*member), *member),
    {
        self.put_member(*member);
        Ok(())
    }

    /// Removes the membership of `user_id` in `household_id`.
    pub fn remove_member(&mut self, household_id: &HouseholdId, user_id: &UserId) -> (r: Result<
        (),
        HouseholdRepositoryError,
    >)
        requires
            old(self).wf(),
        ensures
            final(self).wf(),
            final(self)@.households == old(self)@.households,
            old(self)@.members.contains_key((*household_id, *user_id)) ==> r is Ok && final(self)@.members == old(self)@.members.remove((*household_id, *user_id)),
            !old(self)@.members.contains_key((*household_id, *user_id)) ==> r == Err::<
                (),
                HouseholdRepositoryError,
            >(HouseholdRepositoryError::MemberNotFound) && final(self)@ == old(self)@,
    {
        match self.position_of_member(*household_id, *user_id) {
            Some(i) => {
                let ghost before = self.members@;
                self.members.remove(i);
                proof {
                    lemma_index_map_remove(before, member_key(), i as int);
                    lemma_index_map_dom(before, member_key(), (*household_id, *user_id));
                }
                Ok(())
            },
            None => Err(HouseholdRepositoryError::MemberNotFound),
        }
    }

    /// The households of which `user_id` is a member, each once, in no
    /// particular order.
    #[verifier::rlimit(40)]
    pub fn find_for_user(&self, user_id: &UserId) -> (r: Result<Vec<Household>, HouseholdRepositoryError>)
        requires
            self.wf(),
        ensures
            r matches Ok(found) && is_household_listing(self@, *user_id, found@),
    {
        let mut found: Vec<Household> = Vec::new();
        let ghost mut sources: Seq<int> = Seq::empty();
        let mut j: usize = 0;
        while j < self.members.len()
            invariant
                forall|k: u128| #[trigger]
                    self.households@.contains_key(k) ==> self.households@[k]@.id.value() == k,
                j <= self.members@.len(),
                sources.len() == found@.len(),
                forall|i: int|
                    #![trigger found@[i]]
                    0 <= i < found@.len() ==> {
                        &&& 0 <= sources[i] < j
                        &&& self.members@[sources[i]].spec_user_id() == *user_id
                        &&& self.members@[sources[i]].spec_household_id() == found@[i]@.id
                        &&& self.households@.contains_key(found@[i]@.id.value())
                        &&& self.households@[found@[i]@.id.value()]@ == found@[i]@
                    },
                forall|a: int, b: int| 0 <= a < b < sources.len() ==> sources[a] < sources[b],
                forall|m: int|
                    #![trigger self.members@[m]]
                    0 <= m < j && self.members@[m].spec_user_id() == *user_id
                        && self.households@.contains_key(
                        self.members@[m].spec_household_id().value(),
                    ) ==> exists|i: int|
                        0 <= i < found@.len() && #[trigger] found@[i]@.id
                            == self.members@[m].spec_household_id(),
            decreases self.members@.len() - j,
        {
            let m = self.members[j];
            let ghost old_found = found@;
            if m.user_id() == *user_id {
                match self.households.get(&m.household_id().as_uuid()) {
                    Some(h) => {
                        found.push(h.clone());
                        proof {
                            assert forall|i: int| 0 <= i < sources.len() implies sources[i] < j by {
                                assert(0 <= sources[i] < j) by {
                                    let x = old_found[i];
                                }
                            }
                            sources = sources.push(j as int);
                            assert(self.households@[m.spec_household_id().value()]@.id.value()
                                == m.spec_household_id().value());
                            assert(found@[found@.len() - 1]@.id == m.spec_household_id());
                        }
                    },
                    None => {},
                }
            }
            proof {
                assert forall|i: int| 0 <= i < old_found.len() implies found@[i] == old_found[i] by {}
                assert forall|k: int|
                    #![trigger self.members@[k]]
                    0 <= k < j + 1 && self.members@[k].spec_user_id() == *user_id
                        && self.households@.contains_key(
                        self.members@[k].spec_household_id().value(),
                    ) implies exists|i: int|
                        0 <= i < found@.len() && #[trigger] found@[i]@.id
                            == self.members@[k].spec_household_id() by {
                    if k < j {
                        let i = choose|i: int|
                            0 <= i < old_found.len() && #[trigger] old_found[i]@.id
                                == self.members@[k].spec_household_id();
                        assert(found@[i] == old_found[i]);
                    } else {
                        assert(found@[found@.len() - 1]@.id == m.spec_household_id());
                    }
                }
            }
            j = j + 1;
        }
        proof {
            assert forall|i: int|
                #![trigger found@[i]]
                0 <= i < found@.len() implies self@.members.contains_key((found@[i]@.id, *user_id)) by {
                let src = sources[i];
                assert(0 <= src < self.members@.len());
                assert(member_key()(self.members@[src]) == (found@[i]@.id, *user_id));
                lemma_index_map_dom(self.members@, member_key(), (found@[i]@.id, *user_id));
            }
            assert forall|hid: HouseholdId|
                #![trigger self@.members.dom().contains((hid, *user_id))]
                self@.members.contains_key((hid, *user_id)) && self@.households.contains_key(
                    hid.value(),
                ) implies exists|i: int| 0 <= i < found@.len() && #[trigger] found@[i]@.id == hid by {
                lemma_index_map_dom(self.members@, member_key(), (hid, *user_id));
                let m = choose|m: int|
                    0 <= m < self.members@.len() && #[trigger] member_key()(self.members@[m]) == (
                        hid,
                        *user_id,
                    );
                assert(self.members@[m].spec_household_id() == hid);
                assert(self.members@[m].spec_user_id() == *user_id);
                assert(self.households@.contains_key(hid.value()));
                assert(exists|i: int|
                    0 <= i < found@.len() && #[trigger] found@[i]@.id
                        == self.members@[m].spec_household_id());
            }
            assert forall|i: int, k: int|
                0 <= i < k < found@.len() implies #[trigger] found@[i]@.id != #[trigger] found@[k]@.id by {
                let a = sources[i];
                let b = sources[k];
                assert(a != b);
                assert(0 <= a < self.members@.len() && 0 <= b < self.members@.len()) by {
                    let x = found@[i];
                    let y = found@[k];
                }
                assert(member_key()(self.members@[a]) != member_key()(self.members@[b]));
            }
            assert forall|i: int|
                #![trigger found@[i]]
                0 <= i < found@.len() implies self@.households.contains_key(found@[i]@.id.value())
                    && self@.households[found@[i]@.id.value()] == found@[i]@ by {
                let k = found@[i]@.id.value();
                assert(self.households@.contains_key(k));
                assert(self@.households[k] == self.households@[k]@);
            }
        }
        Ok(found)
    }

    /// The identifier of the personal household of `user_id`, if there is one.
    fn key_of_personal(&self, user_id: UserId) -> (r: Option<u128>)
        ensures
            match r {
                Some(k) => self.households@.contains_key(k) && self.households@[k]@.is_personal_of(
                    user_id,
                ),
                None => !has_personal_household(self@.households, user_id),
            },
    {
        for (k, h) in it: self.households.iter()
            invariant
                forall|i: int|
                    0 <= i < it.index() ==> !(#[trigger] it.seq()[i]).1@.is_personal_of(user_id),
        {
            if h.kind() == HouseholdKind::Personal && h.personal_owner_id() == Some(user_id) {
                return Some(*k);
            }
        }
        proof {
            if has_personal_household(self@.households, user_id) {
                let k = choose|k: u128|
                    self@.households.contains_key(k) && (#[trigger] self@.households[k]).is_personal_of(
                        user_id,
                    );
                assert(!self.households@[k]@.is_personal_of(user_id));
            }
        }
        None
    }

    /// Where the membership of `user_id` in `household_id` is kept.
    fn position_of_member(&self, household_id: HouseholdId, user_id: UserId) -> (r: Option<usize>)
        ensures
            match r {
                Some(i) => i < self.members@.len() && member_key()(self.members@[i as int]) == (
                    household_id,
                    user_id,
                ),
                None => !self@.members.contains_key((household_id, user_id)),
            },
    {
        let mut i: usize = 0;
        while i < self.members.len()
            invariant
                i <= self.members@.len(),
                forall|j: int|
                    0 <= j < i ==> member_key()(#[trigger] self.members@[j]) != (household_id, user_id),
            decreases self.members@.len() - i,
        {
            let m = self.members[i];
            if m.household_id() == household_id && m.user_id() == user_id {
                return Some(i);
            }
            i = i + 1;
        }
        proof {
            lemma_index_map_dom(self.members@, member_key(), (household_id, user_id));
        }
        None
    }
}

impl Default for InMemoryHouseholdRepository {
    /// An empty store.
    fn default() -> (r: InMemoryHouseholdRepository)
        ensures
            r.wf(),
            r@.households == Map::<u128, HouseholdView>::empty(),
            r@.members == Map::<(HouseholdId, UserId), HouseholdMember>::empty(),
    {
        InMemoryHouseholdRepository::new()
    }
}

/// No user of a consistent store has two personal households.
pub proof fn lemma_personal_household_unique(
    repository: &InMemoryHouseholdRepository,
    k1: u128,
    k2: u128,
    user_id: UserId,
)
    requires
        repository.wf(),
        repository@.households.contains_key(k1),
        repository@.households.contains_key(k2),
        repository@.households[k1].is_personal_of(user_id),
        repository@.households[k2].is_personal_of(user_id),
    ensures
        k1 == k2,
{
    assert(repository.households@[k1]@.is_personal_of(user_id));
    assert(repository.households@[k2]@.is_personal_of(user_id));
}

/// Once a personal household has been created for a user, creating another
/// personal household for that user is refused with
/// `PersonalHouseholdAlreadyExists`, whatever its identifier.
pub proof fn lemma_second_personal_household_refused(
    store: HouseholdStoreView,
    first: HouseholdView,
    first_owner: HouseholdMember,
    second: HouseholdView,
    second_owner: HouseholdMember,
)
    requires
        create_with_owner_check(store, first, first_owner) is None,
        first.kind == HouseholdKind::Personal,
        second.kind == HouseholdKind::Personal,
        aggregate_is_consistent(second, second_owner),
        second_owner.spec_user_id() == first_owner.spec_user_id(),
    ensures
        create_with_owner_check(
            HouseholdStoreView {
                households: store.households.insert(first.id.value(), first),
                members: store.members.insert(member_key()(first_owner), first_owner),
            },
            second,
            second_owner,
        ) == Some(HouseholdRepositoryError::PersonalHouseholdAlreadyExists),
{
    let after = store.households.insert(first.id.value(), first);
    assert(after.contains_key(first.id.value()));
    assert(after[first.id.value()].is_personal_of(second_owner.spec_user_id()));
}

/// After a household is created with its owner, reading the store gives the
/// household under its identifier and the owner's membership, and listing
/// the owner's households includes it.
pub proof fn lemma_created_household_is_found(
    store: HouseholdStoreView,
    household: HouseholdView,
    owner: HouseholdMember,
)
    requires
        create_with_owner_check(store, household, owner) is None,
    ensures
        ({
            let households = store.households.insert(household.id.value(), household);
            let members = store.members.insert(member_key()(owner), owner);
            &&& households.contains_key(household.id.value())
            &&& households[household.id.value()] == household
            &&& members.contains_key((household.id, owner.spec_user_id()))
            &&& members[(household.id, owner.spec_user_id())].spec_role() == HouseholdRole::Owner
        }),
{
}

/// Personal households are refused per owner: a consistent household under
/// a new identifier is stored unless it is personal and its own owner
/// already has a personal household; other users' personal households do
/// not stand in its way.
pub proof fn lemma_personal_refusal_is_per_owner(
    store: HouseholdStoreView,
    household: HouseholdView,
    owner: HouseholdMember,
)
    requires
        aggregate_is_consistent(household, owner),
        !store.households.contains_key(household.id.value()),
    ensures
        create_with_owner_check(store, household, owner) is None <==> !(household.kind
            == HouseholdKind::Personal && exists|k: u128|
            store.households.contains_key(k) && (#[trigger] store.households[k]).kind
                == HouseholdKind::Personal && store.households[k].personal_owner_id == Some(
                owner.spec_user_id(),
            )),
        create_with_owner_check(store, household, owner) is Some ==> create_with_owner_check(
            store,
            household,
            owner,
        ) == Some(HouseholdRepositoryError::PersonalHouseholdAlreadyExists),
{
}

} // verus!
