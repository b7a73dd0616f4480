//! Password digests, computed and checked by Argon2.

use argon2::password_hash::rand_core::OsRng;
use argon2::password_hash::{PasswordHash, PasswordHasher, PasswordVerifier, SaltString};
use argon2::Argon2;
use vstd::prelude::*;

verus! {

/// The digest that `Argon2::default().hash_password` computes of `password`
/// under the salt `salt`: `None` where the text is no salt and where the
/// hashing reports an error.
pub uninterp spec fn argon2_digest(password: Seq<u8>, salt: Seq<char>) -> Option<Seq<char>>;

/// What `Argon2::default().verify_password` makes of `password` against the
/// digest `password_hash`: `None` where the digest is not a PHC string.
pub uninterp spec fn argon2_verdict(password: Seq<u8>, password_hash: Seq<char>) -> Option<bool>;

/// The text of a digest that may be absent.
pub open spec fn digest_text(digest: Option<String>) -> Option<Seq<char>> {
    match digest {
        Some(d) => Some(d@),
        None => None,
    }
}

/// A salt that `SaltString::generate` draws from the operating system, in its
/// text form. Nothing is claimed of it: two salts differ. (The generator gives
/// up where the operating system has no random bytes to give.)
#[verifier::external_body]
fn fresh_salt() -> String {
    SaltString::generate(&mut OsRng).as_str().to_owned()
}

/// Reads the salt with `SaltString::from_b64` and calls
/// `Argon2::default().hash_password` with it. The digest is a function of the
/// two arguments. What is taken on trust of every digest that comes out is
/// that the password verifies against it, as the crate's documentation shows
/// by example.
#[verifier::external_body]
fn argon2_hash(password: &[u8], salt: &str) -> (digest: Option<String>)
    ensures
        digest_text(digest) == argon2_digest(password@, salt@),
        digest matches Some(d) ==> argon2_verdict(password@, d@) == Some(true),
{
    let salt = SaltString::from_b64(salt).ok()?;
    Argon2::default().hash_password(password, &salt).ok().map(|hash| hash.to_string())
}

/// Parses the digest with `PasswordHash::new` and calls
/// `Argon2::default().verify_password` on it. The result is a function of the
/// two arguments.
#[verifier::external_body]
fn argon2_verify(password: &[u8], password_hash: &str) -> (verdict: Option<bool>)
    ensures
        verdict == argon2_verdict(password@, password_hash@),
{
    let parsed = PasswordHash::new(password_hash).ok()?;
    Some(Argon2::default().verify_password(password, &parsed).is_ok())
}

/// Digests `password` under a fresh salt, so that two digests of one password
/// differ. What comes out is the Argon2 digest of these very bytes under some
/// salt, and the password verifies against it.
pub fn hash_password(password: &[u8]) -> (digest: Option<String>)
    ensures
        exists|salt: Seq<char>| digest_text(digest) == #[trigger] argon2_digest(password@, salt),
        digest matches Some(d) ==> argon2_verdict(password@, d@) == Some(true),
{
    let salt = fresh_salt();
    let digest = argon2_hash(password, salt.as_str());
    assert(digest_text(digest) == argon2_digest(password@, salt@));
    digest
}

/// Whether `password` is the password that `password_hash` was made from. A
/// text that is no digest matches no password.
pub fn validate_password(password: &[u8], password_hash: &str) -> (valid: bool)
    ensures
        valid == (argon2_verdict(password@, password_hash@) == Some(true)),
{
    match argon2_verify(password, password_hash) {
        Some(matches) => matches,
        None => false,
    }
}

} // verus!
