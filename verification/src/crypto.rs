//! Password and key hashing with Argon2id.

use argon2::password_hash::{PasswordHasher, PasswordVerifier};
use vstd::prelude::*;
use crate::text::has_prefix;

verus! {

/// The error type of the `password-hash` crate, as `argon2` re-exports it.
#[verifier::external_type_specification]
#[verifier::external_body]
pub struct ExPasswordHashError(argon2::password_hash::Error);

/// Whether `argon2` accepts a password for a hash: whether the text parses
/// as a PHC hash string and hashing the password with the algorithm,
/// version, parameters and salt of that string gives the output that it
/// holds.
pub uninterp spec fn argon2_accepts(password: Seq<char>, hash: Seq<char>) -> bool;

/// Calls `SaltString::generate` with the system's random source, then
/// `Argon2::default().hash_password`, and returns the PHC string of the
/// result. The salt is random, so the hash is not determined by the
/// password. The default algorithm is Argon2id, whose PHC strings begin
/// with `$argon2id$`; and verification recomputes the output from the
/// parameters and the salt that the string holds, so it accepts the
/// password that was hashed.
#[verifier::external_body]
fn argon2_hash(password: &str) -> (r: Result<String, argon2::password_hash::Error>)
    ensures
        r matches Ok(hash) ==> has_prefix(hash@, "$argon2id$"@) && argon2_accepts(
            password@,
            hash@,
        ),
{
    let salt = argon2::password_hash::SaltString::generate(
        &mut argon2::password_hash::rand_core::OsRng,
    );
    match argon2::Argon2::default().hash_password(password.as_bytes(), &salt) {
        Ok(hash) => Ok(hash.to_string()),
        Err(e) => Err(e),
    }
}

/// Calls `PasswordHash::new` on the hash and, where it parses,
/// `Argon2::default().verify_password`. The answer depends on the two texts
/// alone. The work done is that of the parameters named in the hash.
#[verifier::external_body]
fn argon2_verify(password: &str, hash: &str) -> (accepted: bool)
    ensures
        accepted == argon2_accepts(password@, hash@),
{
    match argon2::password_hash::PasswordHash::new(hash) {
        Ok(parsed) => argon2::Argon2::default().verify_password(
            password.as_bytes(),
            &parsed,
        ).is_ok(),
        Err(_) => false,
    }
}

/// Why hashing failed.
#[derive(Debug, Clone, Copy, PartialEq, Eq, Structural)]
pub enum CryptoError {
    /// The hashing library reported an error.
    HashingFailed,
}

/// Hashes a password with Argon2id under a fresh random salt and returns
/// the hash in PHC string format, which holds the algorithm, the
/// parameters, the salt and the output. The hash begins with `$argon2` and
/// is accepted for the password by [`verify_password`].
pub fn hash_password(password: &str) -> (r: Result<String, CryptoError>)
    ensures
        r matches Ok(hash) ==> has_prefix(hash@, "$argon2"@) && argon2_accepts(password@, hash@),
{
    let hashed = hash_outcome(argon2_hash(password));
    proof {
        if hashed is Ok {
            let hash = hashed->Ok_0@;
            reveal_strlit("$argon2id$");
            reveal_strlit("$argon2");
            assert("$argon2id$"@.len() == 10 && "$argon2"@.len() == 7);
            assert("$argon2"@ =~= "$argon2id$"@.subrange(0, 7));
            assert(hash.subrange(0, 7) =~= hash.subrange(0, 10).subrange(0, 7));
        }
    }
    hashed
}

/// Whether a password matches an Argon2 hash in PHC string format. A text
/// that is no such hash matches no password.
pub fn verify_password(password: &str, hash: &str) -> (accepted: bool)
    ensures
        accepted == argon2_accepts(password@, hash@),
{
    argon2_verify(password, hash)
}

/// What the answer of the hashing library means for the caller: the hash,
/// as it came, where there is one; and `HashingFailed` for every error of
/// the library, whichever it is.
pub fn hash_outcome(answer: Result<String, argon2::password_hash::Error>) -> (r: Result<
    String,
    CryptoError,
>)
    ensures
        match answer {
            Ok(hash) => r matches Ok(out) && out@ == hash@,
            Err(_) => r == Err::<String, CryptoError>(CryptoError::HashingFailed),
        },
{
    match answer {
        Ok(hash) => Ok(hash),
        Err(_) => Err(CryptoError::HashingFailed),
    }
}

} // verus!
