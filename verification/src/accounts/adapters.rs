//! The hashers and the token generator that the accounts services use in
//! production: Argon2 for passwords, SHA-256 for session tokens, and the
//! operating system's random source for new tokens.
use argon2::password_hash::{PasswordHasher as _, PasswordVerifier as _};
use argon2::password_hash::PasswordHash as PhcString;
use base64::Engine as _;
use sha2::Digest as _;
use vstd::prelude::*;
use vstd::utf8::encode_utf8;
use crate::accounts::domain::{PasswordHash, SessionToken, SessionTokenHash};
use crate::accounts::ports::{
    PasswordHasher, PasswordHasherError, SessionTokenGenerator, SessionTokenGeneratorError,
    SessionTokenHasher,
};
use crate::shared::fill_from_os_random;
use crate::text::{is_blank, is_white_space};

verus! {

// ------------------------------------------------------------ outside values

#[verifier::external_type_specification]
#[verifier::external_body]
pub struct ExPasswordHashError(argon2::password_hash::Error);

/// The PHC string that `Argon2::default().hash_password` makes of `password`
/// (as UTF-8) with the base64 salt `salt`, or `None` where it refuses them.
pub uninterp spec fn argon2_phc(password: Seq<char>, salt: Seq<char>) -> Option<Seq<char>>;

/// What `Argon2::default().verify_password` answers for `password` (as
/// UTF-8) and the PHC string `phc`: whether the password matches, or `None`
/// where the string does not parse or verification fails otherwise.
pub uninterp spec fn argon2_verify_result(password: Seq<char>, phc: Seq<char>) -> Option<bool>;

/// The SHA-256 digest of `data`.
pub uninterp spec fn sha256_digest(data: Seq<u8>) -> Seq<u8>;

/// The unpadded URL-safe base64 encoding of `bytes`.
pub uninterp spec fn base64_url_no_pad(bytes: Seq<u8>) -> Seq<char>;

/// Whether `c` belongs to the URL-safe base64 alphabet.
pub open spec fn is_url_safe_base64_char(c: char) -> bool {
    ||| 'A' <= c <= 'Z'
    ||| 'a' <= c <= 'z'
    ||| '0' <= c <= '9'
    ||| c == '-'
    ||| c == '_'
}

// ------------------------------------------------------------ outside calls

/// `SaltString::encode_b64`, read as its base64 text: the salt that
/// `bytes` encode. Which text that is is not stated: hashing is stated for
/// every salt.
#[verifier::external_body]
fn encode_salt(bytes: &[u8; 16]) -> (r: Result<String, argon2::password_hash::Error>) {
    argon2::password_hash::SaltString::encode_b64(bytes).map(|salt| salt.as_str().to_owned())
}

/// `Argon2::default().hash_password` with the salt `salt` (taken as a
/// `Salt` by `Salt::from_b64`), rendered as a PHC string. Hashing is a
/// function of the password and the salt; `password-hash` renders every
/// hash as `$` followed by the algorithm's name and fields, and verifying
/// recomputes the hash from the salt and parameters in that string, so the
/// password verifies against its own hash.
#[verifier::external_body]
fn argon2_hash_password(password: &str, salt: &str) -> (r: Result<
    String,
    argon2::password_hash::Error,
>)
    ensures
        match r {
            Ok(h) => {
                &&& argon2_phc(password@, salt@) == Some(h@)
                &&& h@.len() > 0 && h@[0] == '$'
                &&& argon2_verify_result(password@, h@) == Some(true)
            },
            Err(_) => argon2_phc(password@, salt@) is None,
        },
{
    let salt = argon2::password_hash::Salt::from_b64(salt)?;
    argon2::Argon2::default().hash_password(password.as_bytes(), salt).map(|h| h.to_string())
}

/// `argon2::password_hash::PasswordHash::new` (imported as `PhcString`) on
/// `encoded`, then `Argon2::default().verify_password`: `Some(true)` where
/// the password matches, `Some(false)` for `Error::Password`, and `None` for
/// a string that does not parse and for every other error. The parser
/// refuses the empty string and a string that does not begin with `$`.
#[verifier::external_body]
fn argon2_verify_password(password: &str, encoded: &str) -> (r: Option<bool>)
    ensures
        r == argon2_verify_result(password@, encoded@),
        encoded@.len() == 0 || encoded@[0] != '$' ==> r is None,
{
    match PhcString::new(encoded) {
        Err(_) => None,
        Ok(parsed) => match argon2::Argon2::default().verify_password(password.as_bytes(), &parsed) {
            Ok(()) => Some(true),
            Err(argon2::password_hash::Error::Password) => Some(false),
            Err(_) => None,
        },
    }
}

/// `sha2::Sha256::digest`.
#[verifier::external_body]
fn sha256(data: &[u8]) -> (r: [u8; 32])
    ensures
        r@ == sha256_digest(data@),
{
    sha2::Sha256::digest(data).into()
}

/// `base64::engine::general_purpose::URL_SAFE_NO_PAD.encode`: every three
/// bytes become four characters of the URL-safe alphabet, and a trailing one
/// or two bytes become two or three characters, without padding. The
/// encoding is one-to-one: no other bytes encode to the same text.
#[verifier::external_body]
fn encode_url_safe_no_pad(bytes: &[u8]) -> (r: String)
    ensures
        r@ == base64_url_no_pad(bytes@),
        r@.len() == (4 * bytes@.len() + 2) / 3,
        forall|other: Seq<u8>| other != bytes@ ==> #[trigger] base64_url_no_pad(other) != r@,
        forall|i: int| 0 <= i < r@.len() ==> is_url_safe_base64_char(#[trigger] r@[i]),
{
    base64::engine::general_purpose::URL_SAFE_NO_PAD.encode(bytes)
}

// --------------------------------------------------------- password hashing

/// Hashes passwords with Argon2 (default parameters, random salt) and
/// verifies them against PHC strings.
pub struct Argon2PasswordHasher;

impl Argon2PasswordHasher {
    pub fn new() -> (r: Argon2PasswordHasher) {
        Argon2PasswordHasher
    }
}

/// Whether `Argon2::default()` may hash `password` to `outcome`: a PHC
/// string of the password with some salt, against which the password
/// verifies; or `HashFailed`, where the random source failed or hashing
/// with the drawn salt was refused.
pub open spec fn argon2_may_hash(password: Seq<char>, outcome: Result<Seq<char>, PasswordHasherError>) -> bool {
    match outcome {
        Ok(h) => {
            &&& exists|salt: Seq<char>| #[trigger] argon2_phc(password, salt) == Some(h)
            &&& argon2_verify_outcome(password, h) == Ok::<bool, PasswordHasherError>(true)
        },
        Err(e) => e == PasswordHasherError::HashFailed,
    }
}

/// What checking `password` against `hash` with Argon2 answers.
pub open spec fn argon2_verify_outcome(password: Seq<char>, hash: Seq<char>) -> Result<
    bool,
    PasswordHasherError,
> {
    match argon2_verify_result(password, hash) {
        Some(matches) => Ok(matches),
        None => Err(PasswordHasherError::VerifyFailed),
    }
}

impl PasswordHasher for Argon2PasswordHasher {
    open spec fn may_hash(&self, password: Seq<char>, outcome: Result<Seq<char>, PasswordHasherError>) -> bool {
        argon2_may_hash(password, outcome)
    }

    open spec fn verify_outcome(&self, password: Seq<char>, hash: Seq<char>) -> Result<bool, PasswordHasherError> {
        argon2_verify_outcome(password, hash)
    }

    fn hash(&self, password: &str) -> (r: Result<PasswordHash, PasswordHasherError>)
        ensures
            r matches Ok(h) ==> h@.len() > 0 && h@[0] == '$',
    {
        let mut salt_bytes = [0u8; 16];
        match fill_from_os_random(&mut salt_bytes) {
            Ok(()) => {},
            Err(_) => return Err(PasswordHasherError::HashFailed),
        }
        let salt = match encode_salt(&salt_bytes) {
            Ok(salt) => salt,
            Err(_) => return Err(PasswordHasherError::HashFailed),
        };
        let encoded = match argon2_hash_password(password, salt.as_str()) {
            Ok(encoded) => encoded,
            Err(_) => return Err(PasswordHasherError::HashFailed),
        };
        proof {
            assert(!is_blank(encoded@)) by {
                assert(!is_white_space(encoded@[0]));
            }
        }
        match PasswordHash::from_encoded(encoded.as_str()) {
            Ok(hash) => Ok(hash),
            Err(_) => Err(PasswordHasherError::HashFailed),
        }
    }

    fn verify(&self, password: &str, hash: &PasswordHash) -> (r: Result<bool, PasswordHasherError>)
        ensures
            hash@.len() == 0 || hash@[0] != '$' ==> r == Err::<bool, PasswordHasherError>(
                PasswordHasherError::VerifyFailed,
            ),
    {
        match argon2_verify_password(password, hash.as_str()) {
            Some(matches) => Ok(matches),
            None => Err(PasswordHasherError::VerifyFailed),
        }
    }
}

/// A password verifies against every hash that Argon2 may make of it.
pub proof fn lemma_argon2_round_trip(password: Seq<char>, hash: Seq<char>)
    requires
        argon2_may_hash(password, Ok(hash)),
    ensures
        argon2_verify_outcome(password, hash) == Ok::<bool, PasswordHasherError>(true),
{
}

// ------------------------------------------------------ session token hashing

/// The hash stored for the session token `token`: the unpadded URL-safe
/// base64 encoding of the SHA-256 digest of its UTF-8 bytes.
pub open spec fn sha256_token_hash(token: Seq<char>) -> Seq<char> {
    base64_url_no_pad(sha256_digest(encode_utf8(token)))
}

/// Hashes session tokens with SHA-256 and encodes the digest in URL-safe
/// base64 without padding.
pub struct Sha256SessionTokenHasher;

impl Sha256SessionTokenHasher {
    pub fn new() -> (r: Sha256SessionTokenHasher) {
        Sha256SessionTokenHasher
    }
}

impl SessionTokenHasher for Sha256SessionTokenHasher {
    open spec fn hash_of(&self, token: Seq<char>) -> Seq<char> {
        sha256_token_hash(token)
    }

    fn hash(&self, token: &SessionToken) -> (r: SessionTokenHash) {
        let digest = sha256(token.as_str().as_bytes());
        let encoded = encode_url_safe_no_pad(&digest);
        proof {
            assert(encoded@.len() == 43);
            assert(!is_blank(encoded@)) by {
                assert(is_url_safe_base64_char(encoded@[0]));
            }
        }
        SessionTokenHash::from_encoded(encoded.as_str()).expect(
            "SHA-256 output encoding must be valid token hash",
        )
    }
}

// ---------------------------------------------------- session token generation

/// Generates session tokens from 32 bytes of the operating system's random
/// source, encoded in URL-safe base64 without padding.
pub struct SecureSessionTokenGenerator;

impl SecureSessionTokenGenerator {
    pub fn new() -> (r: SecureSessionTokenGenerator) {
        SecureSessionTokenGenerator
    }
}

impl SessionTokenGenerator for SecureSessionTokenGenerator {
    fn generate(&self) -> (r: Result<SessionToken, SessionTokenGeneratorError>)
        ensures
            match r {
                Ok(token) => {
                    &&& token@.len() == 43
                    &&& forall|i: int|
                        0 <= i < token@.len() ==> is_url_safe_base64_char(#[trigger] token@[i])
                    &&& exists|bytes: Seq<u8>|
                        {
                            &&& bytes.len() == 32
                            &&& token@ == #[trigger] base64_url_no_pad(bytes)
                            &&& forall|other: Seq<u8>|
                                other != bytes ==> #[trigger] base64_url_no_pad(other) != token@
                        }
                },
                Err(e) => e == SessionTokenGeneratorError::GenerationFailed,
            },
    {
        let mut bytes = [0u8; 32];
        match fill_from_os_random(&mut bytes) {
            Ok(()) => {},
            Err(_) => return Err(SessionTokenGeneratorError::GenerationFailed),
        }
        let encoded = encode_url_safe_no_pad(&bytes);
        Ok(SessionToken::from_string(encoded))
    }
}

} // verus!
