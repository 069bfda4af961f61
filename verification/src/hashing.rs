//! The password-hashing step of user creation: deriving a salted Argon2
//! hash string from a plaintext password, and checking a password against
//! such a string.

use vstd::prelude::*;
use argon2::PasswordHasher;
use argon2::PasswordVerifier;

verus! {

/// Whether `password` matches the self-describing hash string `hash` under
/// the hashing scheme: the hash recomputed from `password` with the
/// algorithm, parameters and salt encoded in `hash` equals the digest
/// encoded in `hash`. The outcome is a function of the two arguments alone;
/// what it is on given values only the hashing scheme itself can say.
pub uninterp spec fn verifies(password: Seq<char>, hash: Seq<char>) -> bool;

/// Whether `s` begins with the `"$argon2"` prefix that every hash string
/// produced by the hashing step carries. No plaintext password that lacks
/// this prefix can collide with its own hash.
pub open spec fn phc_prefixed(s: Seq<char>) -> bool {
    s.len() >= 7 && s.subrange(0, 7) == "$argon2"@
}

/// Relies on argon2::Argon2::hash_password (the `PasswordHasher` impl),
/// which draws a fresh random salt from the system RNG on every call, so
/// two calls on one password may return different strings. On success the
/// returned string is the PHC encoding of algorithm, parameters, salt and
/// digest: it begins with `"$argon2"`, and verifying it against the hashed
/// password recomputes the same digest and succeeds.
#[verifier::external_body]
pub(crate) fn hash_password(password: &str) -> (r: Option<String>)
    ensures
        match r {
            Some(h) => verifies(password@, h@) && phc_prefixed(h@),
            None => true,
        },
{
    match argon2::Argon2::default().hash_password(password.as_bytes()) {
        Ok(h) => Some(h.to_string()),
        Err(_) => None,
    }
}

/// Relies on argon2::Argon2::verify_password (the `PasswordVerifier<str>`
/// impl): it parses `hash`, recomputes the hash of `password` with the
/// algorithm, parameters and salt encoded there, and compares digests. The
/// outcome depends on `password` and `hash` alone; an unparsable `hash`
/// fails verification.
#[verifier::external_body]
pub(crate) fn verify_password(password: &str, hash: &str) -> (r: bool)
    ensures
        r == verifies(password@, hash@),
{
    argon2::Argon2::default().verify_password(password.as_bytes(), hash).is_ok()
}

} // verus!
