//! Value objects and entities of the households module.
use vstd::prelude::*;
use vstd::string::StrSliceExecFns;
use crate::accounts::domain::UserId;
use crate::shared::{is_drawn_uuid, is_random_uuid, random_uuid, uuid_hyphenated, uuid_text, RandomSourceError};
use crate::text::{is_trimmed, lemma_trimmed, lemma_trimmed_idempotent, str_equals, trim, trimmed};
use crate::time::Timestamp;

verus! {

broadcast use vstd::string::group_string_axioms;

// ----------------------------------------------------------------- identifier

/// Identifies a household; holds the 128-bit value of a UUID.
#[derive(Debug, Clone, Copy, PartialEq, Eq, Hash, Structural)]
pub struct HouseholdId(u128);

/// Two identifiers are equal exactly when their values are.
pub broadcast proof fn lemma_household_id_value_injective(a: HouseholdId, b: HouseholdId)
    ensures
        (#[trigger] a.value() == #[trigger] b.value()) <==> a == b,
{
}

impl HouseholdId {
    /// The UUID value of this identifier.
    pub closed spec fn value(self) -> u128 {
        self.0
    }

    /// The identifier with the UUID value `value`.
    pub closed spec fn from_value(value: u128) -> HouseholdId {
        HouseholdId(value)
    }

    /// An identifier made from a value has that value.
    pub broadcast proof fn lemma_from_value(value: u128)
        ensures
            #[trigger] HouseholdId::from_value(value).value() == value,
    {
    }

    /// A fresh random identifier, or the failure of the operating system's
    /// random source.
    pub fn new() -> (r: Result<HouseholdId, RandomSourceError>)
        ensures
            r matches Ok(id) ==> is_random_uuid(id.value()) && is_drawn_uuid(id.value()),
    {
        match random_uuid() {
            Ok(value) => Ok(HouseholdId(value)),
            Err(e) => Err(e),
        }
    }

    pub fn from_uuid(value: u128) -> (r: HouseholdId)
        ensures
            r.value() == value,
            r == HouseholdId::from_value(value),
    {
        HouseholdId(value)
    }

    pub fn as_uuid(&self) -> (r: u128)
        ensures
            r == self.value(),
    {
        self.0
    }

    pub fn into_uuid(self) -> (r: u128)
        ensures
            r == self.value(),
    {
        self.0
    }
    /// The identifier in hyphenated UUID form.
    pub fn to_string(&self) -> (r: String)
        ensures
            r@ == uuid_hyphenated(self.value()),
    {
        uuid_text(self.0)
    }
}

// ------------------------------------------------------------- household name

/// The longest household name, in characters.
pub const HOUSEHOLD_NAME_MAX_CHARS: usize = 50;

#[derive(Debug, Clone, Copy, PartialEq, Eq, Structural)]
pub enum HouseholdNameError {
    Empty,
    TooLong,
}

/// What `HouseholdName::parse` makes of `input`: its trimmed form, or why it
/// is refused.
pub open spec fn household_name_outcome(input: Seq<char>) -> Result<Seq<char>, HouseholdNameError> {
    let t = trimmed(input);
    if t.len() == 0 {
        Err(HouseholdNameError::Empty)
    } else if t.len() > HOUSEHOLD_NAME_MAX_CHARS {
        Err(HouseholdNameError::TooLong)
    } else {
        Ok(t)
    }
}

/// Whether `s` is the text of a household name.
pub open spec fn is_household_name(s: Seq<char>) -> bool {
    &&& 0 < s.len() <= HOUSEHOLD_NAME_MAX_CHARS
    &&& is_trimmed(s)
}

/// The name of a household: trimmed, not empty, at most fifty characters.
#[derive(Debug, PartialEq, Eq)]
pub struct HouseholdName(String);

impl View for HouseholdName {
    type V = Seq<char>;

    closed spec fn view(&self) -> Seq<char> {
        self.0@
    }
}

impl HouseholdName {
    #[verifier::type_invariant]
    closed spec fn inv(self) -> bool {
        is_household_name(self.0@)
    }

    pub fn parse(value: &str) -> (r: Result<HouseholdName, HouseholdNameError>)
        ensures
            match r {
                Ok(name) => household_name_outcome(value@) == Ok::<
                    Seq<char>,
                    HouseholdNameError,
                >(name@),
                Err(e) => household_name_outcome(value@) == Err::<Seq<char>, HouseholdNameError>(
                    e,
                ),
            },
    {
        let trimmed_value = trim(value);
        proof {
            lemma_trimmed(value@);
        }
        if trimmed_value.is_empty() {
            return Err(HouseholdNameError::Empty);
        }
        if trimmed_value.unicode_len() > HOUSEHOLD_NAME_MAX_CHARS {
            return Err(HouseholdNameError::TooLong);
        }
        Ok(HouseholdName(trimmed_value.to_owned()))
    }

    pub fn as_str(&self) -> (r: &str)
        ensures
            r@ == self@,
            is_household_name(r@),
    {
        proof {
            use_type_invariant(self);
        }
        self.0.as_str()
    }
}

impl Clone for HouseholdName {
    fn clone(&self) -> (r: Self)
        ensures
            r == *self,
    {
        proof {
            use_type_invariant(self);
        }
        HouseholdName(self.0.clone())
    }
}

/// Household names are normalised once: the text of a parsed name parses to
/// the same name, and every household name's text is accepted as it is.
pub proof fn lemma_household_name_normal_form(input: Seq<char>, name: Seq<char>)
    ensures
        household_name_outcome(input) matches Ok(t) ==> household_name_outcome(t) == Ok::<
            Seq<char>,
            HouseholdNameError,
        >(t),
        is_household_name(name) ==> household_name_outcome(name) == Ok::<
            Seq<char>,
            HouseholdNameError,
        >(name),
{
    lemma_trimmed_idempotent(input);
    if is_household_name(name) {
        crate::text::lemma_trimmed_fixed_point(name);
    }
}

// ------------------------------------------------------------- household kind

#[derive(Debug, Clone, Copy, PartialEq, Eq, Structural)]
pub enum HouseholdKindError {
    Invalid,
}

/// Whether a household belongs to one user or is shared by several.
#[derive(Debug, Clone, Copy, PartialEq, Eq, Hash, Structural)]
pub enum HouseholdKind {
    Personal,
    Shared,
}

/// The text that stands for `kind` in storage.
pub open spec fn household_kind_text(kind: HouseholdKind) -> Seq<char> {
    match kind {
        HouseholdKind::Personal => "personal"@,
        HouseholdKind::Shared => "shared"@,
    }
}

/// What `HouseholdKind::parse` makes of `input`.
pub open spec fn household_kind_outcome(input: Seq<char>) -> Result<HouseholdKind, HouseholdKindError> {
    if input == "personal"@ {
        Ok(HouseholdKind::Personal)
    } else if input == "shared"@ {
        Ok(HouseholdKind::Shared)
    } else {
        Err(HouseholdKindError::Invalid)
    }
}

impl HouseholdKind {
    pub fn parse(value: &str) -> (r: Result<HouseholdKind, HouseholdKindError>)
        ensures
            r == household_kind_outcome(value@),
    {
        if str_equals(value, "personal") {
            Ok(HouseholdKind::Personal)
        } else if str_equals(value, "shared") {
            Ok(HouseholdKind::Shared)
        } else {
            Err(HouseholdKindError::Invalid)
        }
    }

    pub fn as_str(&self) -> (r: &'static str)
        ensures
            r@ == household_kind_text(*self),
    {
        match self {
            HouseholdKind::Personal => "personal",
            HouseholdKind::Shared => "shared",
        }
    }
}

/// A kind's stored text parses back to that kind, and no other text does.
pub proof fn lemma_household_kind_round_trip(kind: HouseholdKind, input: Seq<char>)
    ensures
        household_kind_outcome(household_kind_text(kind)) == Ok::<HouseholdKind, HouseholdKindError>(
            kind,
        ),
        household_kind_outcome(input) == Ok::<HouseholdKind, HouseholdKindError>(kind) ==> input
            == household_kind_text(kind),
{
    reveal_strlit("personal");
    reveal_strlit("shared");
    assert("personal"@ != "shared"@) by {
        assert("personal"@.len() != "shared"@.len());
    }
}

impl core::str::FromStr for HouseholdKind {
    type Err = HouseholdKindError;

    fn from_str(s: &str) -> (r: Result<HouseholdKind, HouseholdKindError>)
        ensures
            r == household_kind_outcome(s@),
    {
        HouseholdKind::parse(s)
    }
}

// ------------------------------------------------------------- household role

#[derive(Debug, Clone, Copy, PartialEq, Eq, Structural)]
pub enum HouseholdRoleError {
    Invalid,
}

/// The role of a member in a household.
#[derive(Debug, Clone, Copy, PartialEq, Eq, Hash, Structural)]
pub enum HouseholdRole {
    Owner,
    Member,
}

/// The text that stands for `role` in storage.
pub open spec fn household_role_text(role: HouseholdRole) -> Seq<char> {
    match role {
        HouseholdRole::Owner => "owner"@,
        HouseholdRole::Member => "member"@,
    }
}

/// What `HouseholdRole::parse` makes of `input`.
pub open spec fn household_role_outcome(input: Seq<char>) -> Result<HouseholdRole, HouseholdRoleError> {
    if input == "owner"@ {
        Ok(HouseholdRole::Owner)
    } else if input == "member"@ {
        Ok(HouseholdRole::Member)
    } else {
        Err(HouseholdRoleError::Invalid)
    }
}

impl HouseholdRole {
    pub fn parse(value: &str) -> (r: Result<HouseholdRole, HouseholdRoleError>)
        ensures
            r == household_role_outcome(value@),
    {
        if str_equals(value, "owner") {
            Ok(HouseholdRole::Owner)
        } else if str_equals(value, "member") {
            Ok(HouseholdRole::Member)
        } else {
            Err(HouseholdRoleError::Invalid)
        }
    }

    pub fn as_str(&self) -> (r: &'static str)
        ensures
            r@ == household_role_text(*self),
    {
        match self {
            HouseholdRole::Owner => "owner",
            HouseholdRole::Member => "member",
        }
    }
}

/// A role's stored text parses back to that role, and no other text does.
pub proof fn lemma_household_role_round_trip(role: HouseholdRole, input: Seq<char>)
    ensures
        household_role_outcome(household_role_text(role)) == Ok::<HouseholdRole, HouseholdRoleError>(
            role,
        ),
        household_role_outcome(input) == Ok::<HouseholdRole, HouseholdRoleError>(role) ==> input
            == household_role_text(role),
{
    reveal_strlit("owner");
    reveal_strlit("member");
    assert("owner"@ != "member"@) by {
        assert("owner"@.len() != "member"@.len());
    }
}

impl core::str::FromStr for HouseholdRole {
    type Err = HouseholdRoleError;

    fn from_str(s: &str) -> (r: Result<HouseholdRole, HouseholdRoleError>)
        ensures
            r == household_role_outcome(s@),
    {
        HouseholdRole::parse(s)
    }
}

// ------------------------------------------------------------------ household

#[derive(Debug, Clone, Copy, PartialEq, Eq, Structural)]
pub enum HouseholdError {
    InvalidTimestamps,
    PersonalHouseholdRequiresOwner,
    SharedHouseholdCannotHavePersonalOwner,
}

/// What `Household::new` decides for these arguments: `None` where it builds
/// the household, else the error.
pub open spec fn household_check(
    kind: HouseholdKind,
    personal_owner_id: Option<UserId>,
    created_at: Timestamp,
    updated_at: Timestamp,
) -> Option<HouseholdError> {
    if updated_at.precedes(created_at) {
        Some(HouseholdError::InvalidTimestamps)
    } else if kind == HouseholdKind::Personal && personal_owner_id is None {
        Some(HouseholdError::PersonalHouseholdRequiresOwner)
    } else if kind == HouseholdKind::Shared && personal_owner_id is Some {
        Some(HouseholdError::SharedHouseholdCannotHavePersonalOwner)
    } else {
        None
    }
}

/// The abstract value of a household.
pub struct HouseholdView {
    pub id: HouseholdId,
    pub name: Seq<char>,
    pub kind: HouseholdKind,
    pub personal_owner_id: Option<UserId>,
    pub created_at: Timestamp,
    pub updated_at: Timestamp,
}

impl HouseholdView {
    /// Whether this household is the personal household of `user_id`.
    pub open spec fn is_personal_of(self, user_id: UserId) -> bool {
        self.kind == HouseholdKind::Personal && self.personal_owner_id == Some(user_id)
    }
}

/// A household: a personal one has exactly one owner, a shared one none,
/// and it was not updated before it was created.
#[derive(Debug, PartialEq, Eq)]
pub struct Household {
    id: HouseholdId,
    name: HouseholdName,
    kind: HouseholdKind,
    personal_owner_id: Option<UserId>,
    created_at: Timestamp,
    updated_at: Timestamp,
}

impl View for Household {
    type V = HouseholdView;

    closed spec fn view(&self) -> HouseholdView {
        HouseholdView {
            id: self.id,
            name: self.name@,
            kind: self.kind,
            personal_owner_id: self.personal_owner_id,
            created_at: self.created_at,
            updated_at: self.updated_at,
        }
    }
}

impl Household {
    #[verifier::type_invariant]
    closed spec fn inv(self) -> bool {
        household_check(self.kind, self.personal_owner_id, self.created_at, self.updated_at) is None
    }

    pub fn new(
        id: HouseholdId,
        name: HouseholdName,
        kind: HouseholdKind,
        personal_owner_id: Option<UserId>,
        created_at: Timestamp,
        updated_at: Timestamp,
    ) -> (r: Result<Household, HouseholdError>)
        ensures
            match household_check(kind, personal_owner_id, created_at, updated_at) {
                Some(e) => r == Err::<Household, HouseholdError>(e),
                None => r matches Ok(h) && h@ == (HouseholdView {
                    id,
                    name: name@,
                    kind,
                    personal_owner_id,
                    created_at,
                    updated_at,
                }),
            },
    {
        if updated_at.is_before(&created_at) {
            return Err(HouseholdError::InvalidTimestamps);
        }
        match (kind, personal_owner_id) {
            (HouseholdKind::Personal, None) => {
                return Err(HouseholdError::PersonalHouseholdRequiresOwner);
            },
            (HouseholdKind::Shared, Some(_)) => {
                return Err(HouseholdError::SharedHouseholdCannotHavePersonalOwner);
            },
            _ => {},
        }
        Ok(Household { id, name, kind, personal_owner_id, created_at, updated_at })
    }

    pub fn id(&self) -> (r: HouseholdId)
        ensures
            r == self@.id,
    {
        self.id
    }

    pub fn name(&self) -> (r: &HouseholdName)
        ensures
            r@ == self@.name,
    {
        &self.name
    }

    pub fn kind(&self) -> (r: HouseholdKind)
        ensures
            r == self@.kind,
            household_check(self@.kind, self@.personal_owner_id, self@.created_at, self@.updated_at)
                is None,
    {
        proof {
            use_type_invariant(self);
        }
        self.kind
    }

    pub fn personal_owner_id(&self) -> (r: Option<UserId>)
        ensures
            r == self@.personal_owner_id,
            household_check(self@.kind, self@.personal_owner_id, self@.created_at, self@.updated_at)
                is None,
    {
        proof {
            use_type_invariant(self);
        }
        self.personal_owner_id
    }

    pub fn created_at(&self) -> (r: Timestamp)
        ensures
            r == self@.created_at,
    {
        self.created_at
    }

    pub fn updated_at(&self) -> (r: Timestamp)
        ensures
            r == self@.updated_at,
    {
        self.updated_at
    }
}

impl Clone for Household {
    fn clone(&self) -> (r: Self)
        ensures
            r == *self,
    {
        proof {
            use_type_invariant(self);
        }
        Household {
            id: self.id,
            name: self.name.clone(),
            kind: self.kind,
            personal_owner_id: self.personal_owner_id,
            created_at: self.created_at,
            updated_at: self.updated_at,
        }
    }
}

// ----------------------------------------------------------- household member

/// A user's membership in a household.
#[derive(Debug, Clone, Copy, PartialEq, Eq, Structural)]
pub struct HouseholdMember {
    household_id: HouseholdId,
    user_id: UserId,
    role: HouseholdRole,
    created_at: Timestamp,
}

impl HouseholdMember {
    /// The household of this membership.
    pub closed spec fn spec_household_id(self) -> HouseholdId {
        self.household_id
    }

    /// The member.
    pub closed spec fn spec_user_id(self) -> UserId {
        self.user_id
    }

    /// The member's role.
    pub closed spec fn spec_role(self) -> HouseholdRole {
        self.role
    }

    /// When the membership began.
    pub closed spec fn spec_created_at(self) -> Timestamp {
        self.created_at
    }

    /// A membership is determined by its four parts.
    pub proof fn lemma_extensional(a: HouseholdMember, b: HouseholdMember)
        ensures
            (a.spec_household_id() == b.spec_household_id() && a.spec_user_id() == b.spec_user_id()
                && a.spec_role() == b.spec_role() && a.spec_created_at() == b.spec_created_at())
                <==> a == b,
    {
    }

    pub fn new(household_id: HouseholdId, user_id: UserId, role: HouseholdRole, created_at: Timestamp) -> (r: HouseholdMember)
        ensures
            r.spec_household_id() == household_id,
            r.spec_user_id() == user_id,
            r.spec_role() == role,
            r.spec_created_at() == created_at,
    {
        HouseholdMember { household_id, user_id, role, created_at }
    }

    pub fn household_id(&self) -> (r: HouseholdId)
        ensures
            r == self.spec_household_id(),
    {
        self.household_id
    }

    pub fn user_id(&self) -> (r: UserId)
        ensures
            r == self.spec_user_id(),
    {
        self.user_id
    }

    pub fn role(&self) -> (r: HouseholdRole)
        ensures
            r == self.spec_role(),
    {
        self.role
    }

    pub fn created_at(&self) -> (r: Timestamp)
        ensures
            r == self.spec_created_at(),
    {
        self.created_at
    }
}

} // verus!
