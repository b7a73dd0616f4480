//! Password digests for callers that hold their passwords as text.

use crate::argon2_password_hasher;
use crate::argon2_password_hasher::{argon2_digest, argon2_verdict, digest_text};
use vstd::prelude::*;
use vstd::utf8::encode_utf8;

verus! {

/// Digests the bytes of `password` under a fresh salt. What comes out is the
/// Argon2 digest of the password's UTF-8 bytes under some salt, and the
/// password verifies against it.
pub fn hash_password(password: String) -> (digest: Option<String>)
    ensures
        exists|salt: Seq<char>|
            digest_text(digest) == #[trigger] argon2_digest(encode_utf8(password@), salt),
        digest matches Some(d) ==> argon2_verdict(encode_utf8(password@), d@) == Some(
            true,
        ),
{
    argon2_password_hasher::hash_password(password.as_str().as_bytes())
}

/// Whether `password` is the password that `password_hash` was made from.
pub fn validate_password(password: String, password_hash: String) -> (valid: bool)
    ensures
        valid == (argon2_verdict(encode_utf8(password@), password_hash@) == Some(true)),
{
    argon2_password_hasher::validate_password(
        password.as_str().as_bytes(),
        password_hash.as_str(),
    )
}

} // verus!
