//! Credential service: salted one-way hashing at registration time and
//! verification at login time, built on the bcrypt crate.
//!
//! The outcome of verification is deterministic in the password and the
//! stored hash, so it is given two names below: `bcrypt_hash_wf`, whether the
//! stored hash parses as a bcrypt hash (this alone decides whether
//! verification can run at all), and `bcrypt_matches`, whether the password
//! matches the hash. Nothing is assumed about which passwords a hash matches,
//! except that a freshly produced hash matches the password it was made from.

use vstd::prelude::*;

use crate::errors::OpError;

verus! {

/// Whether a stored hash string is structurally a bcrypt hash (60 ASCII
/// characters, a recognised version tag, an in-range cost, valid base64 salt
/// and digest). `bcrypt::verify` returns an error exactly on a hash for which
/// this is false, whatever the password.
pub uninterp spec fn bcrypt_hash_wf(hash: Seq<char>) -> bool;

/// Whether `bcrypt::verify` reports the password as matching the hash. Only
/// meaningful when `bcrypt_hash_wf(hash)` holds.
pub uninterp spec fn bcrypt_matches(password: Seq<char>, hash: Seq<char>) -> bool;

/// Hashes a plaintext secret with a salted one-way function at the default
/// cost. Failure is an internal fault (the operating system's randomness was
/// unavailable), never a property of the input.
///
/// Relies on `bcrypt::hash` with `bcrypt::DEFAULT_COST`: its result is a
/// 60-character (ASCII) version-2b hash built from a fresh random salt, and
/// `bcrypt::verify` of that hash against the same password returns
/// `Ok(true)`. The fixed 60-character form also separates the hash from any
/// plaintext of another length.
#[verifier::external_body]
pub fn hash_secret(password: &str) -> (r: Result<String, OpError>)
    ensures
        r matches Ok(h) ==> bcrypt_hash_wf(h@) && bcrypt_matches(password@, h@),
        r matches Ok(h) ==> h@.len() == 60,
        r matches Err(e) ==> e is Hash,
{
    bcrypt::hash(password, bcrypt::DEFAULT_COST).map_err(|_| OpError::Hash)
}

/// Verifies a plaintext secret against a stored hash. A mismatch is the
/// `Ok(false)` result, not an error; the error case is exactly a structurally
/// invalid stored hash.
///
/// Relies on `bcrypt::verify`: it errs if and only if the hash string does
/// not parse as a bcrypt hash (a property of the hash alone), and otherwise
/// deterministically reports whether the password matches.
#[verifier::external_body]
pub fn verify_secret(password: &str, hash: &str) -> (r: Result<bool, OpError>)
    ensures
        r is Ok <==> bcrypt_hash_wf(hash@),
        r matches Ok(b) ==> b == bcrypt_matches(password@, hash@),
        r matches Err(e) ==> e is InvalidStoredHash,
{
    bcrypt::verify(password, hash).map_err(|_| OpError::InvalidStoredHash)
}

/// Decides a login attempt from a fetched credential row: an absent row is
/// the `false` refusal (not an error, and indistinguishable from a wrong
/// password), a present stored hash delegates to secret verification, whose
/// error case is exactly a structurally invalid hash.
pub fn decide_login(stored: Option<String>, password: &str) -> (r: Result<bool, OpError>)
    ensures
        stored is None ==> r == Result::<bool, OpError>::Ok(false),
        stored matches Some(h) ==> {
            if bcrypt_hash_wf(h@) {
                r == Result::<bool, OpError>::Ok(bcrypt_matches(password@, h@))
            } else {
                r == Result::<bool, OpError>::Err(OpError::InvalidStoredHash)
            }
        },
{
    match stored {
        None => Ok(false),
        Some(h) => verify_secret(password, h.as_str()),
    }
}

} // verus!
