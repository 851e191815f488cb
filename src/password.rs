use vstd::prelude::*;
use argon2::password_hash::{PasswordHasher, PasswordVerifier};

verus! {

/// The PHC string that Argon2 with default parameters derives from a
/// password and a B64 salt, or `None` where the salt is refused.
pub uninterp spec fn argon2_phc_of(password: Seq<char>, salt: Seq<char>) -> Option<Seq<char>>;

/// Whether a string parses as a PHC password hash.
pub uninterp spec fn phc_parses(phc: Seq<char>) -> bool;

/// Whether recomputing the hash of `password` with the algorithm, parameters
/// and salt embedded in `phc` reproduces the output embedded in `phc`.
pub uninterp spec fn argon2_accepts(password: Seq<char>, phc: Seq<char>) -> bool;

/// Relies on `SaltString::generate` with the operating system's random source:
/// a fresh random salt in B64 encoding on every call.
#[verifier::external_body]
fn random_salt() -> (r: String) {
    argon2::password_hash::SaltString::generate(&mut argon2::password_hash::rand_core::OsRng)
        .as_str()
        .to_string()
}

/// Relies on `Salt::from_b64` and `Argon2::hash_password` (default parameters),
/// rendered as a PHC string. The PHC string carries the algorithm, version,
/// parameters, salt and output, which `verify_password` reads back to
/// recompute the same output for the same password.
#[verifier::external_body]
fn argon2_hash(password: &str, salt: &str) -> (r: Option<String>)
    ensures
        match r {
            Some(h) => argon2_phc_of(password@, salt@) == Some(h@) && phc_parses(h@)
                && argon2_accepts(password@, h@),
            None => argon2_phc_of(password@, salt@) is None,
        },
{
    let salt = argon2::password_hash::Salt::from_b64(salt).ok()?;
    argon2::Argon2::default()
        .hash_password(password.as_bytes(), salt)
        .ok()
        .map(|h| h.to_string())
}

/// Relies on `PasswordHash::new` to parse the PHC string and on
/// `Argon2::verify_password` to recompute and compare.
#[verifier::external_body]
fn argon2_check(password: &str, phc: &str) -> (r: Option<bool>)
    ensures
        r == (if phc_parses(phc@) {
            Some(argon2_accepts(password@, phc@))
        } else {
            None
        }),
{
    match argon2::password_hash::PasswordHash::new(phc) {
        Ok(h) => Some(argon2::Argon2::default().verify_password(password.as_bytes(), &h).is_ok()),
        Err(_) => None,
    }
}

/// Outcome of checking a password against a stored hash.
#[derive(Debug, Clone, Copy, PartialEq, Eq, Structural)]
pub enum PasswordCheck {
    Match,
    Mismatch,
    /// The stored hash is not a PHC string: a fault of the store, not of the client.
    Malformed,
}

pub open spec fn password_check_of(password: Seq<char>, phc: Seq<char>) -> PasswordCheck {
    if !phc_parses(phc) {
        PasswordCheck::Malformed
    } else if argon2_accepts(password, phc) {
        PasswordCheck::Match
    } else {
        PasswordCheck::Mismatch
    }
}

/// Hashes `plaintext` under the given B64 salt; deterministic in both.
pub fn hash_password_with_salt(plaintext: &str, salt: &str) -> (r: Option<String>)
    ensures
        r matches Some(h) ==> argon2_phc_of(plaintext@, salt@) == Some(h@),
        r is None <==> argon2_phc_of(plaintext@, salt@) is None,
        r matches Some(h) ==> password_check_of(plaintext@, h@) == PasswordCheck::Match,
{
    argon2_hash(plaintext, salt)
}

/// Hashes `plaintext` under a freshly drawn random salt, embedded in the
/// returned PHC string. Whatever salt was drawn, a returned hash verifies
/// against the same plaintext.
pub fn hash_password(plaintext: &str) -> (r: Option<String>)
    ensures
        r matches Some(h) ==> password_check_of(plaintext@, h@) == PasswordCheck::Match,
        r matches Some(h) ==> exists|salt: Seq<char>| argon2_phc_of(plaintext@, salt) == Some(h@),
{
    let salt = random_salt();
    hash_password_with_salt(plaintext, salt.as_str())
}

/// Checks `plaintext` against the PHC string `phc`.
pub fn verify_password(plaintext: &str, phc: &str) -> (r: PasswordCheck)
    ensures
        r == password_check_of(plaintext@, phc@),
{
    match argon2_check(plaintext, phc) {
        None => PasswordCheck::Malformed,
        Some(true) => PasswordCheck::Match,
        Some(false) => PasswordCheck::Mismatch,
    }
}

} // verus!
