//! Password hashing with bcrypt, and random identifiers.
use vstd::prelude::*;

use bcrypt::BcryptError;

use crate::shared::DomainError;

verus! {

#[verifier::external_type_specification]
#[verifier::external_body]
pub struct ExBcryptError(BcryptError);

/// What `bcrypt::verify` answers for password bytes and a hash text: whether
/// they match, or `None` for its error.
pub uninterp spec fn bcrypt_verify_outcome(password: Seq<u8>, hash: Seq<char>) -> Option<bool>;

/// Calls `bcrypt::hash` with a random salt, so the hash itself is not named.
/// As its source shows, verifying the same password against the hash it made
/// succeeds: both cut the password at 72 bytes and hash with the salt and cost
/// that the hash text carries.
#[verifier::external_body]
fn bcrypt_hash(password: &str, cost: u32) -> (r: Result<String, BcryptError>)
    ensures
        r matches Ok(h) ==> bcrypt_verify_outcome(vstd::utf8::encode_utf8(password@), h@) == Some(
            true,
        ),
{
    bcrypt::hash(password, cost)
}

/// Calls `bcrypt::verify`; the contract names its answer, which depends on the
/// password and the hash alone.
#[verifier::external_body]
fn bcrypt_verify(password: &str, hash: &str) -> (r: Result<bool, BcryptError>)
    ensures
        match r {
            Ok(b) => bcrypt_verify_outcome(vstd::utf8::encode_utf8(password@), hash@) == Some(b),
            Err(_) => bcrypt_verify_outcome(vstd::utf8::encode_utf8(password@), hash@) is None,
        },
{
    bcrypt::verify(password, hash)
}

/// The display text of a bcrypt error; nothing is claimed of it.
#[verifier::external_body]
fn bcrypt_error_text(e: &BcryptError) -> String {
    e.to_string()
}

/// The bcrypt cost used for new hashes.
pub const DEFAULT_COST: u32 = 12;

/// Hashing and checking of passwords.
pub trait PasswordService {
    /// Hashes a password.
    fn hash_password(&self, password: &str) -> Result<String, DomainError>;

    /// Checks a password against a hash.
    fn verify_password(&self, password: &str, hash: &str) -> Result<bool, DomainError>;
}

/// Generation of unique identifiers.
pub trait UuidService {
    /// A new identifier.
    fn generate(&self) -> String;
}

/// Password hashing with bcrypt at the default cost.
pub struct BcryptPasswordService;

impl BcryptPasswordService {
    /// A new service.
    pub fn new() -> (r: Self) {
        BcryptPasswordService
    }
}

impl PasswordService for BcryptPasswordService {
    /// A bcrypt hash of the password; a hash it returns verifies the same
    /// password.
    fn hash_password(&self, password: &str) -> (r: Result<String, DomainError>)
        ensures
            r matches Ok(h) ==> bcrypt_verify_outcome(vstd::utf8::encode_utf8(password@), h@)
                == Some(true),
            r matches Err(e) ==> (e matches DomainError::InternalError { message } && "Password hashing failed: "@.is_prefix_of(message@)),
    {
        match bcrypt_hash(password, DEFAULT_COST) {
            Ok(h) => Ok(h),
            Err(e) => Err(DomainError::InternalError {
                message: String::from_str("Password hashing failed: ").concat(
                    bcrypt_error_text(&e).as_str(),
                ),
            }),
        }
    }

    /// Whether the password matches the hash, as bcrypt says.
    fn verify_password(&self, password: &str, hash: &str) -> (r: Result<bool, DomainError>)
        ensures
            match bcrypt_verify_outcome(vstd::utf8::encode_utf8(password@), hash@) {
                Some(b) => r == Ok::<bool, DomainError>(b),
                None => r matches Err(DomainError::InternalError { message })
                    && "Password verification failed: "@.is_prefix_of(message@),
            },
    {
        match bcrypt_verify(password, hash) {
            Ok(b) => Ok(b),
            Err(e) => Err(DomainError::InternalError {
                message: String::from_str("Password verification failed: ").concat(
                    bcrypt_error_text(&e).as_str(),
                ),
            }),
        }
    }
}

/// Calls `Uuid::new_v4` and formats it; the identifier is random, and its
/// hyphenated form is 36 characters long.
#[verifier::external_body]
fn new_uuid_v4() -> (r: String)
    ensures
        r@.len() == 36,
{
    uuid::Uuid::new_v4().to_string()
}

/// Random version-4 UUIDs.
pub struct UuidV4Service;

impl UuidV4Service {
    /// A new service.
    pub fn new() -> (r: Self) {
        UuidV4Service
    }
}

impl UuidService for UuidV4Service {
    /// A random UUID in hyphenated form.
    fn generate(&self) -> (r: String)
        ensures
            r@.len() == 36,
    {
        new_uuid_v4()
    }
}

} // verus!
