//! Value objects and entities of the accounts module.
use vstd::prelude::*;
use vstd::string::StrSliceExecFns;
use crate::shared::{is_drawn_uuid, is_random_uuid, random_uuid, uuid_hyphenated, uuid_text, RandomSourceError};
use crate::text::{is_blank, is_trimmed, lemma_trimmed, lemma_trimmed_idempotent, trim, trimmed};
use crate::time::Timestamp;

verus! {

broadcast use vstd::string::group_string_axioms;

// ---------------------------------------------------------------- identifiers

/// Identifies a user; holds the 128-bit value of a UUID.
#[derive(Debug, Clone, Copy, PartialEq, Eq, Hash, Structural)]
pub struct UserId(u128);

/// Two identifiers are equal exactly when their values are.
pub broadcast proof fn lemma_user_id_value_injective(a: UserId, b: UserId)
    ensures
        (#[trigger] a.value() == #[trigger] b.value()) <==> a == b,
{
}

impl UserId {
    /// The UUID value of this identifier.
    pub closed spec fn value(self) -> u128 {
        self.0
    }

    /// The identifier with the UUID value `value`.
    pub closed spec fn from_value(value: u128) -> UserId {
        UserId(value)
    }

    /// An identifier made from a value has that value.
    pub broadcast proof fn lemma_from_value(value: u128)
        ensures
            #[trigger] UserId::from_value(value).value() == value,
    {
    }

    /// A fresh random identifier, or the failure of the operating system's
    /// random source.
    pub fn new() -> (r: Result<UserId, RandomSourceError>)
        ensures
            r matches Ok(id) ==> is_random_uuid(id.value()) && is_drawn_uuid(id.value()),
    {
        match random_uuid() {
            Ok(value) => Ok(UserId(value)),
            Err(e) => Err(e),
        }
    }

    pub fn from_uuid(value: u128) -> (r: UserId)
        ensures
            r.value() == value,
            r == UserId::from_value(value),
    {
        UserId(value)
    }

    pub fn as_uuid(&self) -> (r: u128)
        ensures
            r == self.value(),
    {
        self.0
    }

    pub fn into_uuid(self) -> (r: u128)
        ensures
            r == self.value(),
    {
        self.0
    }
    /// The identifier in hyphenated UUID form.
    pub fn to_string(&self) -> (r: String)
        ensures
            r@ == uuid_hyphenated(self.value()),
    {
        uuid_text(self.0)
    }
}

/// Identifies an authentication session; holds the 128-bit value of a UUID.
#[derive(Debug, Clone, Copy, PartialEq, Eq, Hash, Structural)]
pub struct SessionId(u128);

/// Two identifiers are equal exactly when their values are.
pub broadcast proof fn lemma_session_id_value_injective(a: SessionId, b: SessionId)
    ensures
        (#[trigger] a.value() == #[trigger] b.value()) <==> a == b,
{
}

impl SessionId {
    /// The UUID value of this identifier.
    pub closed spec fn value(self) -> u128 {
        self.0
    }

    /// The identifier with the UUID value `value`.
    pub closed spec fn from_value(value: u128) -> SessionId {
        SessionId(value)
    }

    /// An identifier made from a value has that value.
    pub broadcast proof fn lemma_from_value(value: u128)
        ensures
            #[trigger] SessionId::from_value(value).value() == value,
    {
    }

    /// A fresh random identifier, or the failure of the operating system's
    /// random source.
    pub fn new() -> (r: Result<SessionId, RandomSourceError>)
        ensures
            r matches Ok(id) ==> is_random_uuid(id.value()) && is_drawn_uuid(id.value()),
    {
        match random_uuid() {
            Ok(value) => Ok(SessionId(value)),
            Err(e) => Err(e),
        }
    }

    pub fn from_uuid(value: u128) -> (r: SessionId)
        ensures
            r.value() == value,
            r == SessionId::from_value(value),
    {
        SessionId(value)
    }

    pub fn as_uuid(&self) -> (r: u128)
        ensures
            r == self.value(),
    {
        self.0
    }

    pub fn into_uuid(self) -> (r: u128)
        ensures
            r == self.value(),
    {
        self.0
    }
    /// The identifier in hyphenated UUID form.
    pub fn to_string(&self) -> (r: String)
        ensures
            r@ == uuid_hyphenated(self.value()),
    {
        uuid_text(self.0)
    }
}

// --------------------------------------------------------------- display name

/// The longest display name, in characters.
pub const DISPLAY_NAME_MAX_CHARS: usize = 50;

#[derive(Debug, Clone, Copy, PartialEq, Eq, Structural)]
pub enum DisplayNameError {
    Empty,
    TooLong,
}

/// What `DisplayName::parse` makes of `input`: its trimmed form, or why it
/// is refused.
pub open spec fn display_name_outcome(input: Seq<char>) -> Result<Seq<char>, DisplayNameError> {
    let t = trimmed(input);
    if t.len() == 0 {
        Err(DisplayNameError::Empty)
    } else if t.len() > DISPLAY_NAME_MAX_CHARS {
        Err(DisplayNameError::TooLong)
    } else {
        Ok(t)
    }
}

/// Whether `s` is the text of a display name.
pub open spec fn is_display_name(s: Seq<char>) -> bool {
    &&& 0 < s.len() <= DISPLAY_NAME_MAX_CHARS
    &&& is_trimmed(s)
}

/// A user's name as shown to other users: trimmed, not empty, at most
/// fifty characters.
#[derive(Debug, PartialEq, Eq)]
pub struct DisplayName(String);

impl View for DisplayName {
    type V = Seq<char>;

    closed spec fn view(&self) -> Seq<char> {
        self.0@
    }
}

impl DisplayName {
    #[verifier::type_invariant]
    closed spec fn inv(self) -> bool {
        is_display_name(self.0@)
    }

    pub fn parse(value: &str) -> (r: Result<DisplayName, DisplayNameError>)
        ensures
            match r {
                Ok(name) => display_name_outcome(value@) == Ok::<Seq<char>, DisplayNameError>(
                    name@,
                ),
                Err(e) => display_name_outcome(value@) == Err::<Seq<char>, DisplayNameError>(e),
            },
    {
        let trimmed_value = trim(value);
        proof {
            lemma_trimmed(value@);
        }
        if trimmed_value.is_empty() {
            return Err(DisplayNameError::Empty);
        }
        if trimmed_value.unicode_len() > DISPLAY_NAME_MAX_CHARS {
            return Err(DisplayNameError::TooLong);
        }
        Ok(DisplayName(trimmed_value.to_owned()))
    }

    pub fn as_str(&self) -> (r: &str)
        ensures
            r@ == self@,
            is_display_name(r@),
    {
        proof {
            use_type_invariant(self);
        }
        self.0.as_str()
    }
}

impl Clone for DisplayName {
    fn clone(&self) -> (r: Self)
        ensures
            r == *self,
    {
        proof {
            use_type_invariant(self);
        }
        DisplayName(self.0.clone())
    }
}

/// Display names are normalised once: the text of a parsed name parses to
/// the same name, and every display name's text is accepted as it is.
pub proof fn lemma_display_name_normal_form(input: Seq<char>, name: Seq<char>)
    ensures
        display_name_outcome(input) matches Ok(t) ==> display_name_outcome(t) == Ok::<
            Seq<char>,
            DisplayNameError,
        >(t),
        is_display_name(name) ==> display_name_outcome(name) == Ok::<Seq<char>, DisplayNameError>(
            name,
        ),
{
    lemma_trimmed_idempotent(input);
    if is_display_name(name) {
        crate::text::lemma_trimmed_fixed_point(name);
    }
}

// ---------------------------------------------------------------------- email

#[derive(Debug, Clone, Copy, PartialEq, Eq, Structural)]
pub enum EmailError {
    Empty,
    InvalidFormat,
}

/// What `email_address::EmailAddress::is_valid` answers for `address`.
pub uninterp spec fn email_address_is_valid(address: Seq<char>) -> bool;

/// `email_address::EmailAddress::is_valid`, which parses the address after
/// RFC 5322 and answers whether that succeeds. The crate splits the address
/// at its last `@` and refuses it where there is none.
#[verifier::external_body]
fn email_address_accepts(address: &str) -> (r: bool)
    ensures
        r == email_address_is_valid(address@),
        r ==> address@.contains('@'),
{
    email_address::EmailAddress::is_valid(address)
}

/// What `Email::parse` makes of `input`: its trimmed form, or why it is
/// refused.
pub open spec fn email_outcome(input: Seq<char>) -> Result<Seq<char>, EmailError> {
    let t = trimmed(input);
    if t.len() == 0 {
        Err(EmailError::Empty)
    } else if !email_address_is_valid(t) {
        Err(EmailError::InvalidFormat)
    } else {
        Ok(t)
    }
}

/// Whether `s` is the text of an email address.
pub open spec fn is_email(s: Seq<char>) -> bool {
    &&& s.len() > 0
    &&& is_trimmed(s)
    &&& email_address_is_valid(s)
}

/// An email address: trimmed and accepted by `email_address`.
#[derive(Debug, PartialEq, Eq)]
pub struct Email(String);

impl View for Email {
    type V = Seq<char>;

    closed spec fn view(&self) -> Seq<char> {
        self.0@
    }
}

impl Email {
    #[verifier::type_invariant]
    closed spec fn inv(self) -> bool {
        is_email(self.0@)
    }

    pub fn parse(email: &str) -> (r: Result<Email, EmailError>)
        ensures
            match r {
                Ok(e) => email_outcome(email@) == Ok::<Seq<char>, EmailError>(e@),
                Err(err) => email_outcome(email@) == Err::<Seq<char>, EmailError>(err),
            },
    {
        let trimmed_email = trim(email);
        proof {
            lemma_trimmed(email@);
        }
        if trimmed_email.is_empty() {
            return Err(EmailError::Empty);
        }
        if !email_address_accepts(trimmed_email) {
            return Err(EmailError::InvalidFormat);
        }
        Ok(Email(trimmed_email.to_owned()))
    }

    pub fn as_str(&self) -> (r: &str)
        ensures
            r@ == self@,
            is_email(r@),
    {
        proof {
            use_type_invariant(self);
        }
        self.0.as_str()
    }

    /// Whether the two addresses are written the same.
    pub fn same_as(&self, other: &Email) -> (r: bool)
        ensures
            r == (self@ == other@),
    {
        self.0 == other.0
    }
}

impl Clone for Email {
    fn clone(&self) -> (r: Self)
        ensures
            r == *self,
    {
        proof {
            use_type_invariant(self);
        }
        Email(self.0.clone())
    }
}

/// Email addresses are normalised once: the text of a parsed address parses
/// to the same address, and every address's text is accepted as it is.
pub proof fn lemma_email_normal_form(input: Seq<char>, address: Seq<char>)
    ensures
        email_outcome(input) matches Ok(t) ==> email_outcome(t) == Ok::<Seq<char>, EmailError>(t),
        is_email(address) ==> email_outcome(address) == Ok::<Seq<char>, EmailError>(address),
{
    lemma_trimmed_idempotent(input);
    if is_email(address) {
        crate::text::lemma_trimmed_fixed_point(address);
    }
}

// -------------------------------------------------------------- password hash

#[derive(Debug, Clone, Copy, PartialEq, Eq, Structural)]
pub enum PasswordHashError {
    Empty,
}

/// The encoded hash of a password; never blank. Its text is kept as given.
#[derive(PartialEq, Eq)]
pub struct PasswordHash(String);

impl View for PasswordHash {
    type V = Seq<char>;

    closed spec fn view(&self) -> Seq<char> {
        self.0@
    }
}

impl PasswordHash {
    #[verifier::type_invariant]
    closed spec fn inv(self) -> bool {
        !is_blank(self.0@)
    }

    pub fn from_encoded(value: &str) -> (r: Result<PasswordHash, PasswordHashError>)
        ensures
            is_blank(value@) <==> r is Err,
            r matches Ok(h) ==> h@ == value@,
            r matches Err(e) ==> e == PasswordHashError::Empty,
    {
        let value = value.to_owned();
        proof {
            lemma_trimmed(value@);
        }
        if trim(value.as_str()).is_empty() {
            return Err(PasswordHashError::Empty);
        }
        Ok(PasswordHash(value))
    }

    pub fn as_str(&self) -> (r: &str)
        ensures
            r@ == self@,
            !is_blank(r@),
    {
        proof {
            use_type_invariant(self);
        }
        self.0.as_str()
    }
}

impl Clone for PasswordHash {
    fn clone(&self) -> (r: Self)
        ensures
            r == *self,
    {
        proof {
            use_type_invariant(self);
        }
        PasswordHash(self.0.clone())
    }
}

// -------------------------------------------------------------- session token

/// The secret a client presents to authenticate a session.
#[derive(PartialEq, Eq)]
pub struct SessionToken(String);

impl View for SessionToken {
    type V = Seq<char>;

    closed spec fn view(&self) -> Seq<char> {
        self.0@
    }
}

impl SessionToken {
    pub fn from_string(value: String) -> (r: SessionToken)
        ensures
            r@ == value@,
    {
        SessionToken(value)
    }

    pub fn as_str(&self) -> (r: &str)
        ensures
            r@ == self@,
    {
        self.0.as_str()
    }

    pub fn into_string(self) -> (r: String)
        ensures
            r@ == self@,
    {
        self.0
    }
}

impl Clone for SessionToken {
    fn clone(&self) -> (r: Self)
        ensures
            r == *self,
    {
        SessionToken(self.0.clone())
    }
}

// --------------------------------------------------------- session token hash

#[derive(Debug, Clone, Copy, PartialEq, Eq, Structural)]
pub enum SessionTokenHashError {
    Empty,
}

/// The stored form of a session token; never blank.
#[derive(Debug, PartialEq, Eq, Hash)]
pub struct SessionTokenHash(String);

impl View for SessionTokenHash {
    type V = Seq<char>;

    closed spec fn view(&self) -> Seq<char> {
        self.0@
    }
}

impl SessionTokenHash {
    #[verifier::type_invariant]
    closed spec fn inv(self) -> bool {
        !is_blank(self.0@)
    }

    pub fn from_encoded(value: &str) -> (r: Result<SessionTokenHash, SessionTokenHashError>)
        ensures
            is_blank(value@) <==> r is Err,
            r matches Ok(h) ==> h@ == value@,
            r matches Err(e) ==> e == SessionTokenHashError::Empty,
    {
        let value = value.to_owned();
        proof {
            lemma_trimmed(value@);
        }
        if trim(value.as_str()).is_empty() {
            return Err(SessionTokenHashError::Empty);
        }
        Ok(SessionTokenHash(value))
    }

    pub fn as_str(&self) -> (r: &str)
        ensures
            r@ == self@,
            !is_blank(r@),
    {
        proof {
            use_type_invariant(self);
        }
        self.0.as_str()
    }

    /// Whether the two hashes are written the same.
    pub fn same_as(&self, other: &SessionTokenHash) -> (r: bool)
        ensures
            r == (self@ == other@),
    {
        self.0 == other.0
    }
}

impl Clone for SessionTokenHash {
    fn clone(&self) -> (r: Self)
        ensures
            r == *self,
    {
        proof {
            use_type_invariant(self);
        }
        SessionTokenHash(self.0.clone())
    }
}

// ----------------------------------------------------------------------- user

/// The abstract value of a user.
pub struct UserView {
    pub id: UserId,
    pub email: Seq<char>,
    pub display_name: Seq<char>,
    pub password_hash: Seq<char>,
}

/// A registered user.
#[derive(PartialEq)]
pub struct User {
    id: UserId,
    display_name: DisplayName,
    email: Email,
    password_hash: PasswordHash,
}

impl View for User {
    type V = UserView;

    closed spec fn view(&self) -> UserView {
        UserView {
            id: self.id,
            email: self.email@,
            display_name: self.display_name@,
            password_hash: self.password_hash@,
        }
    }
}

impl User {
    pub fn new(id: UserId, email: Email, display_name: DisplayName, password_hash: PasswordHash) -> (r: User)
        ensures
            r@ == (UserView {
                id,
                email: email@,
                display_name: display_name@,
                password_hash: password_hash@,
            }),
    {
        User { id, email, display_name, password_hash }
    }

    pub fn id(&self) -> (r: UserId)
        ensures
            r == self@.id,
    {
        self.id
    }

    pub fn email(&self) -> (r: &Email)
        ensures
            r@ == self@.email,
    {
        &self.email
    }

    pub fn password_hash(&self) -> (r: &PasswordHash)
        ensures
            r@ == self@.password_hash,
    {
        &self.password_hash
    }

    pub fn display_name(&self) -> (r: &DisplayName)
        ensures
            r@ == self@.display_name,
    {
        &self.display_name
    }
}

impl Clone for User {
    fn clone(&self) -> (r: Self)
        ensures
            r == *self,
    {
        User {
            id: self.id,
            display_name: self.display_name.clone(),
            email: self.email.clone(),
            password_hash: self.password_hash.clone(),
        }
    }
}

// -------------------------------------------------------------------- session

#[derive(Debug, Clone, Copy, PartialEq, Eq, Structural)]
pub enum SessionError {
    InvalidExpiration,
}

/// The abstract value of a session.
pub struct SessionView {
    pub id: SessionId,
    pub user_id: UserId,
    pub token_hash: Seq<char>,
    pub expires_at: Timestamp,
    pub created_at: Timestamp,
}

/// An authentication session; it expires strictly after it was created.
#[derive(Debug, PartialEq, Eq)]
pub struct Session {
    id: SessionId,
    user_id: UserId,
    token_hash: SessionTokenHash,
    expires_at: Timestamp,
    created_at: Timestamp,
}

impl View for Session {
    type V = SessionView;

    closed spec fn view(&self) -> SessionView {
        SessionView {
            id: self.id,
            user_id: self.user_id,
            token_hash: self.token_hash@,
            expires_at: self.expires_at,
            created_at: self.created_at,
        }
    }
}

impl Session {
    #[verifier::type_invariant]
    closed spec fn inv(self) -> bool {
        self.created_at.precedes(self.expires_at)
    }

    pub fn new(
        id: SessionId,
        user_id: UserId,
        token_hash: SessionTokenHash,
        expires_at: Timestamp,
        created_at: Timestamp,
    ) -> (r: Result<Session, SessionError>)
        ensures
            created_at.precedes(expires_at) <==> r is Ok,
            r matches Ok(s) ==> s@ == (SessionView {
                id,
                user_id,
                token_hash: token_hash@,
                expires_at,
                created_at,
            }),
            r matches Err(e) ==> e == SessionError::InvalidExpiration,
    {
        if !created_at.is_before(&expires_at) {
            return Err(SessionError::InvalidExpiration);
        }
        Ok(Session { id, user_id, token_hash, expires_at, created_at })
    }

    pub fn id(&self) -> (r: SessionId)
        ensures
            r == self@.id,
    {
        self.id
    }

    pub fn user_id(&self) -> (r: UserId)
        ensures
            r == self@.user_id,
    {
        self.user_id
    }

    pub fn token_hash(&self) -> (r: &SessionTokenHash)
        ensures
            r@ == self@.token_hash,
    {
        &self.token_hash
    }

    pub fn expires_at(&self) -> (r: Timestamp)
        ensures
            r == self@.expires_at,
            self@.created_at.precedes(r),
    {
        proof {
            use_type_invariant(self);
        }
        self.expires_at
    }

    pub fn created_at(&self) -> (r: Timestamp)
        ensures
            r == self@.created_at,
            r.precedes(self@.expires_at),
    {
        proof {
            use_type_invariant(self);
        }
        self.created_at
    }

    /// Whether the session has expired at `now`: its expiry is not after `now`.
    pub fn is_expired_at(&self, now: Timestamp) -> (r: bool)
        ensures
            r == !now.precedes(self@.expires_at),
    {
        !now.is_before(&self.expires_at)
    }
}

impl Clone for Session {
    fn clone(&self) -> (r: Self)
        ensures
            r == *self,
    {
        proof {
            use_type_invariant(self);
        }
        Session {
            id: self.id,
            user_id: self.user_id,
            token_hash: self.token_hash.clone(),
            expires_at: self.expires_at,
            created_at: self.created_at,
        }
    }
}

} // verus!
