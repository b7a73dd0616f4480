//! The boundary to `jsonwebtoken`: HMAC-SHA256 signing and verification of the
//! compact three-part token. What this file says of the crate is believed, not
//! proved; it says no more than that the crate computes functions.

use jsonwebtoken::errors::ErrorKind;
use vstd::prelude::*;

verus! {

/// The two claims of a verified token, each as an integer where the payload
/// holds one under that name.
#[derive(Clone, Copy, Debug, PartialEq, Eq, Structural)]
pub struct RawClaims {
    pub data: Option<i64>,
    pub exp: Option<i64>,
}

/// Why a token was turned down before its claims could be read.
#[derive(Clone, Copy, Debug, PartialEq, Eq, Structural)]
pub enum DecodeFault {
    InvalidToken,
    InvalidSignature,
    InvalidAlgorithm,
    MissingRequiredClaim,
    ExpiredSignature,
    Base64,
    Json,
    Utf8,
    Other,
}

/// The error type of `jsonwebtoken`, carried from the verification to
/// `classify` and never looked into.
#[verifier::external_type_specification]
#[verifier::external_body]
pub struct ExJwtError(jsonwebtoken::errors::Error);

/// The token that `jsonwebtoken::encode` produces under `secret` for the
/// claims `data` and `exp`, or `None` where it reports an error.
pub uninterp spec fn hs256_token(secret: Seq<char>, data: int, exp: int) -> Option<Seq<char>>;

/// What `jsonwebtoken::decode` makes of `token` under `secret`, with the expiry
/// check switched off: the claims of a token whose signature holds, or the
/// fault it found.
pub uninterp spec fn hs256_claims(secret: Seq<char>, token: Seq<char>) -> Result<
    RawClaims,
    DecodeFault,
>;

/// The fault that an error of `jsonwebtoken` stands for.
pub uninterp spec fn fault_kind(error: jsonwebtoken::errors::Error) -> DecodeFault;

/// The signature segment that `jsonwebtoken::crypto::sign` computes under
/// `secret` for the text `message`, or `None` where it reports an error.
pub uninterp spec fn hs256_signature(secret: Seq<char>, message: Seq<char>) -> Option<Seq<char>>;

/// The text of a token that may be absent.
pub open spec fn token_text(token: Option<String>) -> Option<Seq<char>> {
    match token {
        Some(t) => Some(t@),
        None => None,
    }
}

/// An outcome of the verification with its error reduced to the fault it
/// stands for.
pub open spec fn verdict(outcome: Result<RawClaims, jsonwebtoken::errors::Error>) -> Result<
    RawClaims,
    DecodeFault,
> {
    match outcome {
        Ok(raw) => Ok(raw),
        Err(error) => Err(fault_kind(error)),
    }
}

/// Calls `jsonwebtoken::encode` with an HS256 header, the claims
/// `{"data": data, "exp": exp}` and `secret` as the HMAC key. The result is a
/// function of the three arguments; nothing else is claimed of it.
#[verifier::external_body]
pub(crate) fn sign_hs256(secret: &str, data: i32, exp: i64) -> (token: Option<String>)
    ensures
        token_text(token) == hs256_token(secret@, data as int, exp as int),
{
    let mut claims = std::collections::BTreeMap::new();
    claims.insert("data", i64::from(data));
    claims.insert("exp", exp);
    let header = jsonwebtoken::Header::new(jsonwebtoken::Algorithm::HS256);
    let key = jsonwebtoken::EncodingKey::from_secret(secret.as_bytes());
    jsonwebtoken::encode(&header, &claims, &key).ok()
}

/// Calls `jsonwebtoken::decode` for HS256 with `secret` as the HMAC key and
/// with `validate_exp` off, so that no check of the crate reads the clock. The
/// crate checks the shape, the header's algorithm and the signature, then
/// parses the payload as a JSON object and requires a numeric `exp` in it.
/// From the object, `data` and `exp` are taken where `serde_json` reads them
/// as integers. The result is a function of the two arguments. (The crate
/// still reads the system clock on its way and gives up on a clock that is
/// set before 1970.)
#[verifier::external_body]
pub(crate) fn verify_hs256(secret: &str, token: &str) -> (outcome: Result<
    RawClaims,
    jsonwebtoken::errors::Error,
>)
    ensures
        verdict(outcome) == hs256_claims(secret@, token@),
{
    let mut rules = jsonwebtoken::Validation::new(jsonwebtoken::Algorithm::HS256);
    rules.validate_exp = false;
    let key = jsonwebtoken::DecodingKey::from_secret(secret.as_bytes());
    let parsed = jsonwebtoken::decode::<std::collections::BTreeMap<String, serde_json::Value>>(
        token,
        &key,
        &rules,
    )?;
    Ok(RawClaims {
        data: parsed.claims.get("data").and_then(serde_json::Value::as_i64),
        exp: parsed.claims.get("exp").and_then(serde_json::Value::as_i64),
    })
}

/// Calls `jsonwebtoken::crypto::sign` for HS256 with `secret` as the HMAC key
/// on the bytes of `message`. The result is a function of the two arguments;
/// nothing else is claimed of it.
#[verifier::external_body]
pub(crate) fn sign_message(secret: &str, message: &str) -> (signature: Option<String>)
    ensures
        token_text(signature) == hs256_signature(secret@, message@),
{
    let key = jsonwebtoken::EncodingKey::from_secret(secret.as_bytes());
    jsonwebtoken::crypto::sign(message.as_bytes(), &key, jsonwebtoken::Algorithm::HS256).ok()
}

/// Reads `jsonwebtoken::errors::Error::kind` and names the variant, one arm
/// for each kind that verification of an HMAC token can report.
#[verifier::external_body]
pub(crate) fn classify(error: &jsonwebtoken::errors::Error) -> (fault: DecodeFault)
    ensures
        fault == fault_kind(*error),
{
    match error.kind() {
        ErrorKind::InvalidToken => DecodeFault::InvalidToken,
        ErrorKind::InvalidSignature => DecodeFault::InvalidSignature,
        ErrorKind::InvalidAlgorithm => DecodeFault::InvalidAlgorithm,
        ErrorKind::MissingRequiredClaim(_) => DecodeFault::MissingRequiredClaim,
        ErrorKind::ExpiredSignature => DecodeFault::ExpiredSignature,
        ErrorKind::Base64(_) => DecodeFault::Base64,
        ErrorKind::Json(_) => DecodeFault::Json,
        ErrorKind::Utf8(_) => DecodeFault::Utf8,
        _ => DecodeFault::Other,
    }
}

} // verus!
