//! Classified operation errors, and their translation to the human-readable
//! strings that the command boundary returns to the caller.

use vstd::prelude::*;

verus! {

/// A store-level or credential-level failure of one operation.
///
/// "Not found" on delete and "no account" on login are *not* errors: they are
/// boolean results. An error means the operation itself failed.
#[derive(Clone, Copy, PartialEq, Eq, Structural, Debug)]
pub enum OpError {
    /// Hashing the secret failed (an internal credential-function fault).
    Hash,
    /// The stored hash is structurally invalid, so it cannot be verified.
    /// Distinct from a login refusal.
    InvalidStoredHash,
    /// An insert violated the unique-email constraint.
    DuplicateEmail,
    /// An update matched no row.
    NotFound,
}

impl OpError {
    /// The boundary string for this error, carrying the failing stage.
    pub fn message(&self) -> (r: String)
        ensures
            *self is Hash ==> r@ == "Hash error: credential hashing failed"@,
            *self is InvalidStoredHash ==> r@ == "Verify error: stored hash is malformed"@,
            *self is DuplicateEmail ==> r@ == "Insert error: duplicate email"@,
            *self is NotFound ==> r@ == "Update error: no matching row"@,
    {
        match self {
            OpError::Hash => "Hash error: credential hashing failed".to_owned(),
            OpError::InvalidStoredHash => "Verify error: stored hash is malformed".to_owned(),
            OpError::DuplicateEmail => "Insert error: duplicate email".to_owned(),
            OpError::NotFound => "Update error: no matching row".to_owned(),
        }
    }
}

} // verus!
