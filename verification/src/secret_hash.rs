//! One-way Argon2 hashing of stored secrets (such as webhook signing
//! secrets). A secret stored this way can only be verified, never read back.
use vstd::prelude::*;

use argon2::password_hash::{Error as PasswordHashError, PasswordHash, PasswordHasher, PasswordVerifier, SaltString};
use argon2::Argon2;

verus! {

/// The error of the password-hashing crate.
#[verifier::external_type_specification]
#[verifier::external_body]
pub struct ExPasswordHashError(PasswordHashError);

/// Whether `secret` matches the encoded Argon2 hash `hash`: the hash parses
/// and the secret, hashed with the parameters and salt it records, gives
/// its digest.
pub uninterp spec fn argon2_accepts(secret: Seq<char>, hash: Seq<char>) -> bool;

/// Hashes the secret with Argon2id under a fresh random salt
/// (`SaltString::generate` with the OS generator, then
/// `Argon2::hash_password`), and encodes the result in the PHC string
/// format. The salt makes the result unpredictable, so no value is stated;
/// the crate's documented round trip is: the encoded hash verifies the same
/// secret.
#[verifier::external_body]
fn argon2_hash(secret: &str) -> (r: Result<String, PasswordHashError>)
    ensures
        r matches Ok(h) ==> argon2_accepts(secret@, h@),
{
    let salt = SaltString::generate(&mut argon2::password_hash::rand_core::OsRng);
    let hash = Argon2::default().hash_password(secret.as_bytes(), &salt)?;
    Ok(hash.to_string())
}

/// Parses the encoded hash (`PasswordHash::new`) and verifies the secret
/// against it (`Argon2::verify_password`); a hash that does not parse
/// verifies nothing. The outcome is named `argon2_accepts`.
#[verifier::external_body]
fn argon2_verify(secret: &str, hash: &str) -> (r: bool)
    ensures
        r == argon2_accepts(secret@, hash@),
{
    let Ok(parsed) = PasswordHash::new(hash) else {
        return false;
    };
    Argon2::default().verify_password(secret.as_bytes(), &parsed).is_ok()
}

/// Hashes a secret for storage: the encoded hash holds the algorithm, its
/// parameters, the salt and the digest. The hash verifies the secret.
pub fn hash_secret(secret: &str) -> (r: Result<String, PasswordHashError>)
    ensures
        r matches Ok(h) ==> argon2_accepts(secret@, h@),
{
    argon2_hash(secret)
}

/// Whether the secret matches a stored hash; a malformed hash or a mismatch
/// gives false.
pub fn verify_secret(secret: &str, hash: &str) -> (r: bool)
    ensures
        r == argon2_accepts(secret@, hash@),
{
    argon2_verify(secret, hash)
}

} // verus!
