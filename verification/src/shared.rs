//! Errors and identifiers shared by the modules.
use rand::TryRngCore as _;
use vstd::prelude::*;

verus! {

/// A failure whose cause is not reported to the caller.
#[derive(Debug, Clone, Copy, PartialEq, Eq, Structural)]
pub enum InternalError {
    Failed,
}

/// A failure of the persistence layer.
#[derive(Debug, Clone, Copy, PartialEq, Eq, Structural)]
pub enum PersistenceError {
    Unavailable,
    Failed,
}

/// The abstract value of a lookup result: the found item by its view.
pub open spec fn lookup_view<T: View, E>(r: Result<Option<T>, E>) -> Result<Option<T::V>, E> {
    match r {
        Ok(Some(t)) => Ok(Some(t@)),
        Ok(None) => Ok(None),
        Err(e) => Err(e),
    }
}

/// Whether a database refusal names the constraint `name`.
pub open spec fn names_constraint(constraint: Option<&str>, name: &str) -> bool {
    constraint matches Some(c) && c@ == name@
}

/// Whether `value` has the version (4) and variant (RFC 4122) bits of a
/// randomly generated UUID.
pub open spec fn is_random_uuid(value: u128) -> bool {
    value & 0x0000_0000_0000_F000_C000_0000_0000_0000u128
        == 0x0000_0000_0000_4000_8000_0000_0000_0000u128
}

#[verifier::external_type_specification]
#[verifier::external_body]
pub struct ExOsError(rand::rand_core::OsError);

/// The operating system's random source could not be read.
#[derive(Debug, Clone, Copy, PartialEq, Eq, Structural)]
pub enum RandomSourceError {
    Unavailable,
}

/// `rand::rngs::OsRng::try_fill_bytes`: fills `bytes` from the operating
/// system's random source, or reports that the source failed. What the bytes
/// are is left to chance.
#[verifier::external_body]
pub(crate) fn fill_from_os_random<const N: usize>(bytes: &mut [u8; N]) -> (r: Result<(), rand::rand_core::OsError>) {
    rand::rngs::OsRng.try_fill_bytes(bytes)
}

/// The value of the UUID that `uuid::Builder::from_random_bytes` builds from
/// `bytes`.
pub uninterp spec fn uuid_from_random(bytes: Seq<u8>) -> u128;

/// `uuid::Builder::from_random_bytes(bytes).into_uuid()`, read back with
/// `Uuid::as_u128`: the bytes with the version nibble set to 4 and the
/// variant bits to `10`.
#[verifier::external_body]
fn random_bytes_uuid(bytes: [u8; 16]) -> (r: u128)
    ensures
        r == uuid_from_random(bytes@),
        is_random_uuid(r),
{
    uuid::Builder::from_random_bytes(bytes).into_uuid().as_u128()
}

/// Whether `value` is the UUID that `uuid::Builder::from_random_bytes`
/// builds from some 16 bytes: the form of every identifier drawn from the
/// random source.
pub open spec fn is_drawn_uuid(value: u128) -> bool {
    exists|bytes: Seq<u8>| bytes.len() == 16 && #[trigger] uuid_from_random(bytes) == value
}

/// A version 4 UUID drawn from the operating system's random source.
pub(crate) fn random_uuid() -> (r: Result<u128, RandomSourceError>)
    ensures
        r matches Ok(v) ==> is_random_uuid(v) && is_drawn_uuid(v),
{
    let mut bytes = [0u8; 16];
    match fill_from_os_random(&mut bytes) {
        Ok(()) => Ok(random_bytes_uuid(bytes)),
        Err(_) => Err(RandomSourceError::Unavailable),
    }
}

/// The hyphenated lower-case text of the UUID with value `value`.
pub uninterp spec fn uuid_hyphenated(value: u128) -> Seq<char>;

/// `uuid::Uuid::from_u128(value).to_string()`: the hyphenated form
/// `xxxxxxxx-xxxx-xxxx-xxxx-xxxxxxxxxxxx`, 36 characters long.
#[verifier::external_body]
pub(crate) fn uuid_text(value: u128) -> (r: String)
    ensures
        r@ == uuid_hyphenated(value),
        r@.len() == 36,
{
    uuid::Uuid::from_u128(value).to_string()
}

} // verus!
