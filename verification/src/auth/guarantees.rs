//! What the contracts of the codec and of the token service add up to.

use crate::auth::actor::{reusable, AuthManager, Issuance};
use crate::auth::hs256::token_text;
use crate::auth::seal::{before_last_dot, last_dot, lemma_last_dot, lemma_last_dot_is};
use crate::auth::simple_jwt_helper::{decoded, minted, Claims, SimpleJWT, TokenError};
use vstd::prelude::*;

verus! {

/// A minted token decodes, at any second, to the claims it was minted with
/// until its expiry, and is reported as expired from then on.
pub proof fn lemma_minted_token_reads(
    jwt: SimpleJWT,
    data: i32,
    now: i64,
    token: Seq<char>,
    later: int,
)
    requires
        jwt.mints(data, now, token),
    ensures
        decoded(jwt.secret(), token, later) == jwt.reading(data, now, later),
{
}

/// A token with a lifetime of at least one second decodes, at the second it
/// was minted, to the principal it was minted for.
pub proof fn lemma_fresh_token_round_trips(jwt: SimpleJWT, data: i32, now: i64, token: Seq<char>)
    requires
        jwt.mints(data, now, token),
        jwt.lifetime() > 0,
    ensures
        decoded(jwt.secret(), token, now as int) == Ok::<Claims<i32>, TokenError>(
            (Claims { data, exp: (now + jwt.lifetime()) as i64 }),
        ),
{
    lemma_minted_token_reads(jwt, data, now, token, now as int);
}

/// A token is valid at every second before its expiry and at none from the
/// expiry on, where it is reported as expired.
pub proof fn lemma_token_expires_on_time(
    jwt: SimpleJWT,
    data: i32,
    now: i64,
    token: Seq<char>,
    later: int,
)
    requires
        jwt.mints(data, now, token),
    ensures
        decoded(jwt.secret(), token, later).is_ok() <==> later < now + jwt.lifetime(),
        later >= now + jwt.lifetime() ==> decoded(jwt.secret(), token, later) == Err::<
            Claims<i32>,
            TokenError,
        >(TokenError::Expired),
{
    lemma_minted_token_reads(jwt, data, now, token, later);
}

/// A token that decodes at some second stops decoding, at every second, once
/// one character of its signature segment is replaced by another. The altered
/// text is never handed out from the cache either.
pub proof fn lemma_altered_signature_is_refused(
    jwt: SimpleJWT,
    token: Seq<char>,
    altered: Seq<char>,
    at: int,
    now: i64,
    later: i64,
)
    requires
        decoded(jwt.secret(), token, now as int).is_ok(),
        altered.len() == token.len(),
        last_dot(token) < at < token.len(),
        altered[at] != token[at],
        forall|i: int| 0 <= i < token.len() && i != at ==> altered[i] == token[i],
    ensures
        decoded(jwt.secret(), altered, later as int).is_err(),
        !reusable(jwt.secret(), Some(altered), later),
{
    let cut = last_dot(token);
    lemma_last_dot(token);
    if altered[at] == '.' {
        lemma_last_dot_is(altered, at);
        let message = before_last_dot(altered);
        assert(message == token.take(at));
        lemma_last_dot_is(message, cut);
        assert(before_last_dot(message) == before_last_dot(token));
    } else {
        lemma_last_dot_is(altered, cut);
        assert(before_last_dot(altered) == before_last_dot(token));
        assert(altered.skip(cut + 1)[at - cut - 1] != token.skip(cut + 1)[at - cut - 1]);
    }
}

/// Whether a token's signature holds does not depend on the clock: a token
/// that is turned down for its signature at one second is turned down for it
/// at every second, and is never handed out again from the cache.
pub proof fn lemma_bad_signature_is_timeless(jwt: SimpleJWT, token: Seq<char>, now: i64, later: i64)
    requires
        decoded(jwt.secret(), token, now as int) == Err::<Claims<i32>, TokenError>(
            TokenError::SignatureInvalid,
        ),
    ensures
        decoded(jwt.secret(), token, later as int) == Err::<Claims<i32>, TokenError>(
            TokenError::SignatureInvalid,
        ),
        !reusable(jwt.secret(), Some(token), later),
{
}

/// A lookup that failed counts as a miss: the service with a cache then
/// answers with the very token that a service without one mints, and asks for
/// it to be stored. The token is good from that second until its expiry.
pub proof fn lemma_failed_lookup_is_a_miss<C>(
    manager: AuthManager<C>,
    data: i32,
    now: i64,
    issuance: Issuance,
    later: int,
)
    requires
        manager.caching(),
        manager.issues(data, None, now, issuance),
    ensures
        token_text(issuance.token) == minted(
            manager.codec().secret(),
            manager.codec().lifetime(),
            data,
            now,
        ),
        issuance.store == issuance.token.is_some(),
        issuance.token matches Some(t) ==> (now <= later < now + manager.codec().lifetime()
            ==> decoded(manager.codec().secret(), t@, later) == Ok::<Claims<i32>, TokenError>(
            (Claims { data, exp: (now + manager.codec().lifetime()) as i64 }),
        )),
{
    if let Some(t) = issuance.token {
        lemma_minted_token_reads(manager.codec(), data, now, t@, later);
    }
}

/// While the token that was issued first is valid, a second request that
/// finds it in the cache is answered with the same token, and nothing is
/// stored again.
pub proof fn lemma_cached_token_is_stable<C>(
    manager: AuthManager<C>,
    data: i32,
    first_at: i64,
    first: Issuance,
    second_at: i64,
    second: Issuance,
)
    requires
        manager.caching(),
        manager.issues(data, None, first_at, first),
        first.token.is_some(),
        manager.issues(data, token_text(first.token), second_at, second),
        first_at <= second_at < first_at + manager.codec().lifetime(),
    ensures
        token_text(second.token) == token_text(first.token),
        !second.store,
{
    let t = first.token.unwrap();
    lemma_minted_token_reads(manager.codec(), data, first_at, t@, second_at as int);
}

/// Once the token that was issued first has expired, a request that finds it
/// in the cache is answered with another token, minted at that second.
pub proof fn lemma_expired_token_is_replaced<C>(
    manager: AuthManager<C>,
    data: i32,
    first_at: i64,
    first: Issuance,
    second_at: i64,
    second: Issuance,
)
    requires
        manager.caching(),
        manager.codec().lifetime() > 0,
        manager.issues(data, None, first_at, first),
        first.token.is_some(),
        manager.issues(data, token_text(first.token), second_at, second),
        second_at >= first_at + manager.codec().lifetime(),
    ensures
        token_text(second.token) != token_text(first.token),
        token_text(second.token) == minted(
            manager.codec().secret(),
            manager.codec().lifetime(),
            data,
            second_at,
        ),
        second.store == second.token.is_some(),
{
    let old_token = first.token.unwrap();
    lemma_minted_token_reads(manager.codec(), data, first_at, old_token@, second_at as int);
    if let Some(new_token) = second.token {
        lemma_minted_token_reads(manager.codec(), data, second_at, new_token@, second_at as int);
    }
}

/// A service that was built without a cache mints every token itself,
/// whatever it is handed as the cache's answer, and asks for nothing to be
/// stored. Its tokens decode to the principal they were minted for.
pub proof fn lemma_service_without_cache_serves<C>(
    manager: AuthManager<C>,
    data: i32,
    cached: Option<Seq<char>>,
    now: i64,
    issuance: Issuance,
)
    requires
        !manager.caching(),
        manager.issues(data, cached, now, issuance),
    ensures
        token_text(issuance.token) == minted(
            manager.codec().secret(),
            manager.codec().lifetime(),
            data,
            now,
        ),
        !issuance.store,
        issuance.token matches Some(t) ==> (manager.codec().lifetime() > 0 ==> decoded(
            manager.codec().secret(),
            t@,
            now as int,
        ) == Ok::<Claims<i32>, TokenError>(
            (Claims { data, exp: (now + manager.codec().lifetime()) as i64 }),
        )),
{
    if let Some(t) = issuance.token {
        lemma_minted_token_reads(manager.codec(), data, now, t@, now as int);
    }
}

/// Two requests for one principal that both miss the cache are each answered
/// with a token of their own. Each token is good for its own lifetime and
/// names the principal, whichever of the two ends up in the cache.
pub proof fn lemma_racing_requests_are_independent<C>(
    manager: AuthManager<C>,
    data: i32,
    one_at: i64,
    one: Issuance,
    other_at: i64,
    other: Issuance,
    later: int,
)
    requires
        manager.caching(),
        manager.issues(data, None, one_at, one),
        manager.issues(data, None, other_at, other),
    ensures
        one.token matches Some(t) ==> decoded(manager.codec().secret(), t@, later)
            == manager.codec().reading(data, one_at, later),
        other.token matches Some(t) ==> decoded(manager.codec().secret(), t@, later)
            == manager.codec().reading(data, other_at, later),
        one.store == one.token.is_some(),
        other.store == other.token.is_some(),
{
    if let Some(t) = one.token {
        lemma_minted_token_reads(manager.codec(), data, one_at, t@, later);
    }
    if let Some(t) = other.token {
        lemma_minted_token_reads(manager.codec(), data, other_at, t@, later);
    }
}

} // verus!
