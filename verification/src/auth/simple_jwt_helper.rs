//! The token codec: claims in, signed token out, and back.

use crate::auth::clock::{on_the_clock, unix_now};
use crate::auth::hs256::{
    classify, hs256_claims, hs256_token, sign_hs256, token_text, verify_hs256, DecodeFault,
    RawClaims,
};
use crate::auth::seal::{is_sealed, sealed};
use vstd::prelude::*;

verus! {

/// What a token asserts: the principal it was issued to, and the second at
/// which it stops being valid. The codec of this crate signs principals of
/// type `i32`.
#[derive(Clone, Copy, Debug, PartialEq, Eq)]
pub struct Claims<T> {
    pub data: T,
    pub exp: i64,
}

/// Why a token was not accepted.
#[derive(Clone, Copy, Debug, PartialEq, Eq, Structural)]
pub enum TokenError {
    /// The text is not a token, or its payload does not hold the two claims.
    Malformed,
    /// The text is a token, but not one signed with this secret and algorithm.
    SignatureInvalid,
    /// The token is genuine and its time is up.
    Expired,
}

/// Signs and verifies tokens with one secret, HMAC-SHA256, and one lifetime.
#[derive(Clone)]
pub struct SimpleJWT {
    jwt_secret: String,
    expiration_duration: u32,
}

/// The error that a fault of the verification is reported as.
pub open spec fn token_error_of(fault: DecodeFault) -> TokenError {
    match fault {
        DecodeFault::InvalidSignature => TokenError::SignatureInvalid,
        DecodeFault::InvalidAlgorithm => TokenError::SignatureInvalid,
        DecodeFault::ExpiredSignature => TokenError::Expired,
        _ => TokenError::Malformed,
    }
}

/// The claims that verified raw claims stand for at the second `now`.
pub open spec fn claims_of(raw: RawClaims, now: int) -> Result<Claims<i32>, TokenError> {
    match (raw.data, raw.exp) {
        (Some(data), Some(exp)) => {
            if data < i32::MIN || data > i32::MAX {
                Err(TokenError::Malformed)
            } else if now < exp {
                Ok(Claims { data: data as i32, exp })
            } else {
                Err(TokenError::Expired)
            }
        },
        _ => Err(TokenError::Malformed),
    }
}

/// What the verification makes of `token` under `secret`, whatever the
/// second: the fault it found, or the raw claims of a token that it let
/// through and that is sealed.
pub open spec fn verified(secret: Seq<char>, token: Seq<char>) -> Result<RawClaims, TokenError> {
    match hs256_claims(secret, token) {
        Err(fault) => Err(token_error_of(fault)),
        Ok(raw) => if sealed(secret, token) {
            Ok(raw)
        } else {
            Err(TokenError::SignatureInvalid)
        },
    }
}

/// What decoding `token` under `secret` gives at the second `now`.
pub open spec fn decoded(secret: Seq<char>, token: Seq<char>, now: int) -> Result<
    Claims<i32>,
    TokenError,
> {
    match verified(secret, token) {
        Err(error) => Err(error),
        Ok(raw) => claims_of(raw, now),
    }
}

/// The raw claims of a token that carries exactly `data` and `exp`.
pub open spec fn carrying(data: i32, exp: i64) -> Result<RawClaims, TokenError> {
    Ok(RawClaims { data: Some(data as i64), exp: Some(exp) })
}

/// The token minted under `secret` for `data` at the second `now`, to expire
/// `lifetime` seconds later. There is none where that second cannot be
/// written in a token, where the signing fails, and where the signed token
/// does not verify to the very claims it was signed for.
pub open spec fn minted(secret: Seq<char>, lifetime: nat, data: i32, now: i64) -> Option<
    Seq<char>,
> {
    if now + lifetime <= i64::MAX {
        match hs256_token(secret, data as int, now + lifetime) {
            Some(token) if verified(secret, token) == carrying(data, (now + lifetime) as i64) => Some(
                token,
            ),
            _ => None,
        }
    } else {
        None
    }
}

/// Maps a fault of the verification to the error it is reported as.
pub fn token_error(fault: DecodeFault) -> (error: TokenError)
    ensures
        error == token_error_of(fault),
{
    match fault {
        DecodeFault::InvalidSignature => TokenError::SignatureInvalid,
        DecodeFault::InvalidAlgorithm => TokenError::SignatureInvalid,
        DecodeFault::ExpiredSignature => TokenError::Expired,
        _ => TokenError::Malformed,
    }
}

/// Reads the claims of a verified payload: the principal must be there and in
/// range, the expiry must be there and still ahead of `now`.
pub fn check_claims(raw: RawClaims, now: i64) -> (outcome: Result<Claims<i32>, TokenError>)
    ensures
        outcome == claims_of(raw, now as int),
{
    match (raw.data, raw.exp) {
        (Some(data), Some(exp)) => {
            if data < -2147483648 || data > 2147483647 {
                Err(TokenError::Malformed)
            } else if now < exp {
                Ok(Claims { data: data as i32, exp })
            } else {
                Err(TokenError::Expired)
            }
        },
        _ => Err(TokenError::Malformed),
    }
}

impl SimpleJWT {
    /// The secret that tokens are signed with.
    pub closed spec fn secret(&self) -> Seq<char> {
        self.jwt_secret@
    }

    /// The number of seconds for which a new token is valid.
    pub closed spec fn lifetime(&self) -> nat {
        self.expiration_duration as nat
    }

    /// A codec that signs with `jwt_secret` and lets its tokens live for
    /// `expiration_duration` seconds.
    pub fn new(jwt_secret: String, expiration_duration: u32) -> (codec: Self)
        ensures
            codec.secret() == jwt_secret@,
            codec.lifetime() == expiration_duration,
    {
        SimpleJWT { jwt_secret, expiration_duration }
    }

    /// What a token minted for `data` at the second `now` decodes to at the
    /// second `later`: its claims until the expiry, an error from then on.
    pub open spec fn reading(&self, data: i32, now: i64, later: int) -> Result<Claims<i32>, TokenError> {
        if later < now + self.lifetime() {
            Ok(Claims { data, exp: (now + self.lifetime()) as i64 })
        } else {
            Err(TokenError::Expired)
        }
    }

    /// Whether `token` is the token that this codec mints for `data` at the
    /// second `now`.
    pub open spec fn mints(&self, data: i32, now: i64, token: Seq<char>) -> bool {
        minted(self.secret(), self.lifetime(), data, now) == Some(token)
    }

    /// Mints a token for `data` at the second `now`. The token is verified
    /// once before it is handed out, so that every token that comes out
    /// decodes to `data` until its expiry.
    pub fn create_token_at(&self, data: i32, now: i64) -> (token: Option<String>)
        ensures
            token_text(token) == minted(self.secret(), self.lifetime(), data, now),
    {
        let lifetime: i64 = self.expiration_duration as i64;
        if now > i64::MAX - lifetime {
            return None;
        }
        let exp: i64 = now + lifetime;
        match sign_hs256(self.jwt_secret.as_str(), data, exp) {
            None => None,
            Some(token) => match self.verify(token.as_str()) {
                Ok(raw) => match (raw.data, raw.exp) {
                    (Some(read_data), Some(read_exp)) => {
                        if read_data == data as i64 && read_exp == exp {
                            Some(token)
                        } else {
                            None
                        }
                    },
                    _ => None,
                },
                Err(_) => None,
            },
        }
    }

    /// Verifies `token`: the outside verification first, then the seal of
    /// what it let through.
    fn verify(&self, token: &str) -> (outcome: Result<RawClaims, TokenError>)
        ensures
            outcome == verified(self.secret(), token@),
    {
        match verify_hs256(self.jwt_secret.as_str(), token) {
            Err(error) => Err(token_error(classify(&error))),
            Ok(raw) => if is_sealed(self.jwt_secret.as_str(), token) {
                Ok(raw)
            } else {
                Err(TokenError::SignatureInvalid)
            },
        }
    }

    /// Mints a token for `data` at the present second.
    pub fn create_token(&self, data: i32) -> (token: Option<String>)
        ensures
            exists|now: i64|
                on_the_clock(now) && token_text(token) == #[trigger] minted(
                    self.secret(),
                    self.lifetime(),
                    data,
                    now,
                ),
    {
        let now: i64 = unix_now();
        let token = self.create_token_at(data, now);
        assert(on_the_clock(now) && token_text(token) == minted(
            self.secret(),
            self.lifetime(),
            data,
            now,
        ));
        token
    }

    /// Verifies `token` and reads its claims at the second `now`. A token that
    /// the outside verification lets through is accepted only if it is sealed.
    pub fn decode_token_at(&self, token: &str, now: i64) -> (outcome: Result<Claims<i32>, TokenError>)
        ensures
            outcome == decoded(self.secret(), token@, now as int),
    {
        match self.verify(token) {
            Err(error) => Err(error),
            Ok(raw) => check_claims(raw, now),
        }
    }

    /// Verifies `token` and reads its claims at the present second.
    pub fn decode_token(&self, token: &str) -> (outcome: Result<Claims<i32>, TokenError>)
        ensures
            exists|now: i64|
                on_the_clock(now) && outcome == #[trigger] decoded(
                    self.secret(),
                    token@,
                    now as int,
                ),
    {
        let now: i64 = unix_now();
        let outcome = self.decode_token_at(token, now);
        assert(on_the_clock(now) && outcome == decoded(self.secret(), token@, now as int));
        outcome
    }

    /// Whether `token` decodes at the second `now`.
    pub fn validate_token_at(&self, token: &str, now: i64) -> (valid: bool)
        ensures
            valid == decoded(self.secret(), token@, now as int).is_ok(),
    {
        match self.decode_token_at(token, now) {
            Ok(_) => true,
            Err(_) => false,
        }
    }

    /// Whether `token` decodes at the present second.
    pub fn validate_token(&self, token: &str) -> (valid: bool)
        ensures
            exists|now: i64|
                on_the_clock(now) && valid == #[trigger] decoded(
                    self.secret(),
                    token@,
                    now as int,
                ).is_ok(),
    {
        let now: i64 = unix_now();
        let valid = self.validate_token_at(token, now);
        assert(on_the_clock(now) && valid == decoded(self.secret(), token@, now as int).is_ok());
        valid
    }
}

} // verus!
