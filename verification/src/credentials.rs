use vstd::prelude::*;
use argon2::password_hash::{rand_core::OsRng, PasswordHasher, SaltString};
use argon2::{Argon2, PasswordHash, PasswordVerifier};

verus! {

/// What the credential verifier decides for a password against a stored
/// hash string: the result of recomputing the memory-hard hash with the
/// salt and parameters carried by the string and comparing the outputs.
/// It depends on the password and the hash string alone.
pub uninterp spec fn password_verifies(password: Seq<char>, hash: Seq<char>) -> bool;

/// Up to this many characters, hashing a password cannot fail (the
/// underlying limit is 2^32 bytes of password; a character encodes to at
/// most four bytes).
pub const MAX_PASSWORD_CHARS: usize = 0x3FFFFFFF;

/// Relies on argon2's `Argon2::hash_password` under a freshly generated
/// salt, and on the round trip the password-hash crate documents:
/// `verify_password` recomputes the hash from the salt and parameters
/// embedded in the returned string, so a string produced here verifies
/// against the same password. Each call salts anew, so nothing else is
/// promised of the returned string. The one failure argon2 knows on this
/// path is a password of 2^32 bytes or more; a character encodes to at
/// most four bytes, so any shorter password hashes.
#[verifier::external_body]
pub fn hash_password(password: &String) -> (r: Option<String>)
    ensures
        password@.len() <= MAX_PASSWORD_CHARS ==> r is Some,
        r matches Some(h) ==> password_verifies(password@, h@),
{
    let salt = SaltString::generate(&mut OsRng);
    match Argon2::default().hash_password(password.as_bytes(), &salt) {
        Ok(h) => Some(h.to_string()),
        Err(_) => None,
    }
}

/// Relies on argon2's `Argon2::verify_password`, with `PasswordHash::new`
/// parsing the stored string: deterministic in the password and the hash
/// string, and it fails closed — a string that does not parse counts as
/// a non-match, never a crash.
#[verifier::external_body]
pub fn verify_password(password: &String, hash: &String) -> (r: bool)
    ensures
        r == password_verifies(password@, hash@),
{
    let parsed = match PasswordHash::new(hash) {
        Ok(parsed) => parsed,
        Err(_) => return false,
    };
    Argon2::default().verify_password(password.as_bytes(), &parsed).is_ok()
}

} // verus!
