//! The token service: issues tokens, reusing the one the cache still holds
//! where there is a cache, and verifies them without ever asking the cache.
//!
//! The service never talks to the cache itself. Its caller asks the cache for
//! the principal's last token, hands over whatever came back, and carries out
//! the store that the service asks for. A lookup that failed is handed over as
//! a miss; a store that fails is dropped.

use crate::auth::clock::{on_the_clock, unix_now};
use crate::auth::hs256::token_text;
use crate::auth::simple_jwt_helper::{decoded, minted, Claims, SimpleJWT, TokenError};
use vstd::prelude::*;

verus! {

/// The service in one of its two modes, chosen once when it is built. `C` is
/// the handle of the cache; the service keeps it for its caller and never
/// looks inside.
#[derive(Clone)]
pub enum AuthManager<C> {
    /// Every token is minted afresh.
    SimpleAuthManager(SimpleJWT),
    /// The last token of each principal is kept in a cache and handed out
    /// again while it is valid.
    RedisAuthManager(SimpleJWT, C),
}

/// A request for a token for the principal `data`.
#[derive(Clone, Copy, Debug, PartialEq, Eq)]
pub struct CreateToken<T> {
    pub data: T,
}

/// A request for the principal that `token` was issued to.
#[derive(Clone, Debug, PartialEq, Eq)]
pub struct ExtractClaim {
    pub token: String,
}

/// The answer to a request for a token: the token, if there is one, and
/// whether the caller is to store it in the cache under the principal.
#[derive(Clone, Debug, PartialEq, Eq)]
pub struct Issuance {
    pub token: Option<String>,
    pub store: bool,
}

/// Whether the cache's answer is a token that is still good at `now`.
pub open spec fn reusable(secret: Seq<char>, cached: Option<Seq<char>>, now: i64) -> bool {
    cached matches Some(t) && decoded(secret, t, now as int).is_ok()
}

/// The token that a request is answered with.
pub open spec fn issued_token(
    caching: bool,
    secret: Seq<char>,
    lifetime: nat,
    data: i32,
    cached: Option<Seq<char>>,
    now: i64,
) -> Option<Seq<char>> {
    if caching && reusable(secret, cached, now) {
        cached
    } else {
        minted(secret, lifetime, data, now)
    }
}

/// Whether the answer is a new token that belongs in the cache.
pub open spec fn to_be_stored(
    caching: bool,
    secret: Seq<char>,
    lifetime: nat,
    data: i32,
    cached: Option<Seq<char>>,
    now: i64,
) -> bool {
    caching && !reusable(secret, cached, now) && minted(secret, lifetime, data, now).is_some()
}

impl Issuance {
    /// Whether this is the answer that the policy gives to the request.
    pub open spec fn answers(
        self,
        caching: bool,
        secret: Seq<char>,
        lifetime: nat,
        data: i32,
        cached: Option<Seq<char>>,
        now: i64,
    ) -> bool {
        &&& token_text(self.token) == issued_token(caching, secret, lifetime, data, cached, now)
        &&& self.store == to_be_stored(caching, secret, lifetime, data, cached, now)
    }
}

impl<C> AuthManager<C> {
    /// Whether the service works with a cache.
    pub open spec fn caching(&self) -> bool {
        self is RedisAuthManager
    }

    /// The codec of the service.
    pub open spec fn codec(&self) -> SimpleJWT {
        match *self {
            AuthManager::SimpleAuthManager(jwt) => jwt,
            AuthManager::RedisAuthManager(jwt, _) => jwt,
        }
    }

    /// Whether `issuance` is what the service answers, at the second `now`, a
    /// request for a token for `data` with, when the cache returned `cached`.
    pub open spec fn issues(
        &self,
        data: i32,
        cached: Option<Seq<char>>,
        now: i64,
        issuance: Issuance,
    ) -> bool {
        issuance.answers(
            self.caching(),
            self.codec().secret(),
            self.codec().lifetime(),
            data,
            cached,
            now,
        )
    }

    /// Builds the service. With a cache handle it works with the cache for
    /// good; without one, because the cache could not be reached, it mints
    /// every token itself for good.
    pub fn new(jwt_secret: String, expiration_duration: u32, cache: Option<C>) -> (manager: Self)
        ensures
            manager.codec().secret() == jwt_secret@,
            manager.codec().lifetime() == expiration_duration,
            manager == match cache {
                Some(handle) => AuthManager::RedisAuthManager(manager.codec(), handle),
                None => AuthManager::SimpleAuthManager(manager.codec()),
            },
    {
        let jwt_auth_mgr = SimpleJWT::new(jwt_secret, expiration_duration);
        match cache {
            Some(handle) => AuthManager::RedisAuthManager(jwt_auth_mgr, handle),
            None => AuthManager::SimpleAuthManager(jwt_auth_mgr),
        }
    }

    /// The codec that signs and verifies for the service.
    pub fn jwt(&self) -> (jwt: &SimpleJWT)
        ensures
            *jwt == self.codec(),
    {
        match self {
            AuthManager::SimpleAuthManager(jwt) => jwt,
            AuthManager::RedisAuthManager(jwt, _) => jwt,
        }
    }

    /// The cache to ask before a token is issued, if the service has one.
    pub fn cache(&self) -> (handle: Option<&C>)
        ensures
            handle.is_some() == self.caching(),
            handle matches Some(c) ==> *self == AuthManager::RedisAuthManager(self.codec(), *c),
    {
        match self {
            AuthManager::SimpleAuthManager(_) => None,
            AuthManager::RedisAuthManager(_, handle) => Some(handle),
        }
    }

    /// Answers a request for a token at the second `now`, given what the cache
    /// returned for the principal (`None` for a miss, for a failed lookup and
    /// where there is no cache). A cached token that still decodes goes out
    /// unchanged; in every other case a new one is minted, to be stored where
    /// there is a cache.
    pub fn create_token_at(&self, data: i32, cached: Option<String>, now: i64) -> (issuance:
        Issuance)
        ensures
            self.issues(data, token_text(cached), now, issuance),
    {
        match self {
            AuthManager::SimpleAuthManager(jwt_auth_mgr) => Issuance {
                token: jwt_auth_mgr.create_token_at(data, now),
                store: false,
            },
            AuthManager::RedisAuthManager(jwt_auth_mgr, _) => {
                match cached {
                    Some(token) => {
                        if jwt_auth_mgr.validate_token_at(token.as_str(), now) {
                            Issuance { token: Some(token), store: false }
                        } else {
                            Self::create_new_token_with_cache(jwt_auth_mgr, data, now)
                        }
                    },
                    None => Self::create_new_token_with_cache(jwt_auth_mgr, data, now),
                }
            },
        }
    }

    /// Mints a token and asks for it to be stored.
    fn create_new_token_with_cache(jwt_auth_mgr: &SimpleJWT, data: i32, now: i64) -> (issuance:
        Issuance)
        ensures
            token_text(issuance.token) == minted(
                jwt_auth_mgr.secret(),
                jwt_auth_mgr.lifetime(),
                data,
                now,
            ),
            issuance.store == issuance.token.is_some(),
    {
        let token = jwt_auth_mgr.create_token_at(data, now);
        let store = token.is_some();
        Issuance { token, store }
    }

    /// Answers a request for a token at the present second.
    pub fn create_token(&self, data: i32, cached: Option<String>) -> (issuance: Issuance)
        ensures
            exists|now: i64|
                on_the_clock(now) && #[trigger] self.issues(
                    data,
                    token_text(cached),
                    now,
                    issuance,
                ),
    {
        let now: i64 = unix_now();
        let issuance = self.create_token_at(data, cached, now);
        assert(on_the_clock(now) && self.issues(data, token_text(cached), now, issuance));
        issuance
    }

    /// Verifies `token` and reads its claims at the second `now`. The cache has
    /// no say in this.
    pub fn decode_token_at(&self, token: &str, now: i64) -> (outcome: Result<Claims<i32>, TokenError>)
        ensures
            outcome == decoded(self.codec().secret(), token@, now as int),
    {
        self.jwt().decode_token_at(token, now)
    }

    /// The principal that `token` was issued to, at the second `now`.
    pub fn extract_claim_at(&self, token: &str, now: i64) -> (outcome: Result<i32, TokenError>)
        ensures
            outcome == principal_of(decoded(self.codec().secret(), token@, now as int)),
    {
        match self.decode_token_at(token, now) {
            Ok(claims) => Ok(claims.data),
            Err(error) => Err(error),
        }
    }

    /// The principal that `token` was issued to, at the present second.
    pub fn extract_claim(&self, token: &str) -> (outcome: Result<i32, TokenError>)
        ensures
            exists|now: i64|
                on_the_clock(now) && outcome == principal_of(
                    #[trigger] decoded(self.codec().secret(), token@, now as int),
                ),
    {
        let now: i64 = unix_now();
        let outcome = self.extract_claim_at(token, now);
        assert(on_the_clock(now) && outcome == principal_of(
            decoded(self.codec().secret(), token@, now as int),
        ));
        outcome
    }

    /// Whether `token` is genuine and not expired at the second `now`.
    pub fn validate_token_at(&self, token: &str, now: i64) -> (valid: bool)
        ensures
            valid == decoded(self.codec().secret(), token@, now as int).is_ok(),
    {
        self.jwt().validate_token_at(token, now)
    }

    /// Whether `token` is genuine and not expired at the present second.
    pub fn validate_token(&self, token: &str) -> (valid: bool)
        ensures
            exists|now: i64|
                on_the_clock(now) && valid == #[trigger] decoded(
                    self.codec().secret(),
                    token@,
                    now as int,
                ).is_ok(),
    {
        let now: i64 = unix_now();
        let valid = self.validate_token_at(token, now);
        assert(on_the_clock(now) && valid == decoded(
            self.codec().secret(),
            token@,
            now as int,
        ).is_ok());
        valid
    }
}

/// The principal of decoded claims.
pub open spec fn principal_of(outcome: Result<Claims<i32>, TokenError>) -> Result<i32, TokenError> {
    match outcome {
        Ok(claims) => Ok(claims.data),
        Err(error) => Err(error),
    }
}

} // verus!
