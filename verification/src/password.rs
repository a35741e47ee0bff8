//! Password-based authentication: Argon2 hashing into self-describing PHC
//! strings, verification as a plain boolean outcome, and random nine-digit
//! session passwords.

use vstd::prelude::*;

verus! {

use crate::Error;
use crate::digits::code9;
use crate::digits::format_code9;
use crate::digits::is_code9;
use argon2::password_hash::PasswordHash;
use argon2::password_hash::PasswordHasher;
use argon2::password_hash::PasswordVerifier;
use argon2::password_hash::SaltString;
use rand::Rng;

/// Whether Argon2 verification accepts this password against this hash
/// string: the deterministic outcome of recomputing the hash with the
/// parameters and salt carried inside the hash string.
pub uninterp spec fn password_matches(password: Seq<char>, hash: Seq<char>) -> bool;

/// Whether this string parses as a self-describing PHC hash string.
pub uninterp spec fn is_phc_hash(hash: Seq<char>) -> bool;

/// Hash a password with Argon2 under a fresh random salt, yielding a
/// self-describing hash string. No password policy is applied; failure means
/// an internal hashing failure, never a "weak" password.
///
/// Relies on `argon2::Argon2::hash_password` (the `PasswordHasher` trait)
/// with a salt from `SaltString::generate(OsRng)`: the returned PHC string
/// parses back with `PasswordHash::new`, and verifying the same password
/// against it succeeds, since the string carries its own parameters and
/// salt. With a generated salt and the default parameters, the only input
/// validation that can fail is the password-length guard, reached only
/// beyond 2^32 - 1 bytes — so hashing succeeds for every shorter password
/// (the bound below leaves room for four bytes per character).
#[verifier::external_body]
pub fn hash_password(password: &str) -> (r: Result<String, Error>)
    ensures
        password@.len() < 0x3FFF_FFFF ==> r is Ok,
        r matches Ok(h) ==> is_phc_hash(h@) && password_matches(password@, h@),
        r matches Err(e) ==> e is Authentication,
{
    let salt = SaltString::generate(&mut argon2::password_hash::rand_core::OsRng);
    let argon2 = argon2::Argon2::default();
    match argon2.hash_password(password.as_bytes(), &salt) {
        Ok(hash) => Ok(hash.to_string()),
        Err(e) => Err(Error::Authentication(format!("Password hashing failed: {}", e))),
    }
}

/// Verify a password against a hash string. A mismatch is the boolean
/// `false`, not an error; the error arises only when the hash string itself
/// is malformed.
///
/// Relies on `argon2::password_hash::PasswordHash::new`, which accepts
/// exactly the well-formed PHC strings, and on `argon2::Argon2::
/// verify_password` (the `PasswordVerifier` trait), whose acceptance is a
/// deterministic function of the password and the hash string alone.
#[verifier::external_body]
pub fn verify_password(password: &str, hash: &str) -> (r: Result<bool, Error>)
    ensures
        (r is Ok) == is_phc_hash(hash@),
        r matches Ok(b) ==> b == password_matches(password@, hash@),
        r matches Err(e) ==> e is Authentication,
{
    let parsed_hash = match PasswordHash::new(hash) {
        Ok(parsed) => parsed,
        Err(e) => return Err(Error::Authentication(format!("Invalid hash: {}", e))),
    };
    let argon2 = argon2::Argon2::default();
    match argon2.verify_password(password.as_bytes(), &parsed_hash) {
        Ok(()) => Ok(true),
        Err(_) => Ok(false),
    }
}

/// A password always verifies against a hash freshly produced from it:
/// for every password below the hash function's length limit, hashing
/// succeeds and verification of the same password against the new hash
/// returns `true`, never `false`.
pub fn verify_fresh_hash(password: &str) -> (r: Result<bool, Error>)
    ensures
        password@.len() < 0x3FFF_FFFF ==> r is Ok,
        r matches Ok(b) ==> b,
        r matches Err(e) ==> e is Authentication,
{
    match hash_password(password) {
        Ok(hash) => verify_password(password, hash.as_str()),
        Err(e) => Err(e),
    }
}

/// Generate a random session password: exactly nine ASCII decimal digits,
/// drawn uniformly from [0, 10^9), left-padded with zeros. A low-friction
/// credential for manual entry, not the cryptographic secret itself.
pub fn generate_session_password() -> (r: String)
    ensures
        is_code9(r@),
        r@.len() == 9,
        exists|n: int| 0 <= n < 1_000_000_000 && r@ == code9(n),
{
    let n = random_below(1_000_000_000);
    format_code9(n)
}

/// Draw a uniform random value below the given bound.
///
/// Relies on `rand::Rng::gen_range` on the range `0..bound`: a uniform draw
/// that always lies below the bound (the range is non-empty).
#[verifier::external_body]
fn random_below(bound: u32) -> (r: u32)
    requires
        bound > 0,
    ensures
        r < bound,
{
    rand::thread_rng().gen_range(0..bound)
}

} // verus!
