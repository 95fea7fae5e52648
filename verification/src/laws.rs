//! What holds of the cache however it is driven.
//!
//! A caller answers a request for the token by asking [`AuthToken::token`]
//! and, where that asks for an exchange, passing the outcome to
//! [`AuthToken::refresh`]. [`Request`], [`after`] and [`answer`] describe one
//! such request over the views of the values involved; the proofs below speak
//! of single requests and of sequences of them.
//!
//! [`AuthToken::token`]: crate::cache::AuthToken::token
//! [`AuthToken::refresh`]: crate::cache::AuthToken::refresh

use crate::cache::CacheView;
use crate::config::ConfigView;
use crate::error::ExchangeError;
use crate::policy::{RefreshPolicy, DEFAULT_VALID_FOR};
use crate::response::ResponseView;
use vstd::prelude::*;

verus! {

/// One request for the token, with all that may bear on its answer.
pub struct Request {
    /// The reading of the clock when the token was asked for.
    pub asked_at: nat,
    /// The outcome of the exchange, should one be performed.
    pub outcome: Result<ResponseView, ExchangeError>,
    /// The reading of the clock when that outcome arrived.
    pub answered_at: nat,
}

/// Whether answering `request` takes an exchange.
pub open spec fn exchanges(cache: CacheView, request: Request) -> bool {
    cache.is_stale(request.asked_at)
}

/// The cache after `request` has been answered.
pub open spec fn after(cache: CacheView, request: Request) -> CacheView {
    if exchanges(cache, request) {
        match request.outcome {
            Ok(response) => cache.install(response, request.answered_at),
            Err(_) => cache,
        }
    } else {
        cache
    }
}

/// What the caller gets for `request`: a token, or the error of the exchange.
pub open spec fn answer(cache: CacheView, request: Request) -> Result<Seq<char>, ExchangeError> {
    if exchanges(cache, request) {
        match request.outcome {
            Ok(response) => Ok(response.access_token),
            Err(error) => Err(error),
        }
    } else {
        Ok(cache.token)
    }
}

/// The reading of the clock at which the answer to `request` is given.
pub open spec fn answered_at(cache: CacheView, request: Request) -> nat {
    if exchanges(cache, request) {
        request.answered_at
    } else {
        request.asked_at
    }
}

/// The cache after each of `requests` has been answered in turn.
pub open spec fn after_all(cache: CacheView, requests: Seq<Request>) -> CacheView
    decreases requests.len(),
{
    if requests.len() == 0 {
        cache
    } else {
        after(after_all(cache, requests.drop_last()), requests.last())
    }
}

/// A token that is served from the cache has not expired, and more than the
/// safety margin of its validity is left: more than 15 seconds under the
/// standard policy.
pub proof fn served_token_keeps_margin(cache: CacheView, now: nat)
    requires
        !cache.is_stale(now),
    ensures
        now < cache.expires_at(),
        cache.remaining(now) > cache.policy.safety_margin,
        cache.policy == RefreshPolicy::spec_standard() ==> cache.remaining(now) > 15,
{
}

/// A token whose validity is no longer than the safety margin is stale at
/// every instant: each request for it takes an exchange.
pub proof fn short_validity_is_always_stale(cache: CacheView, now: nat)
    requires
        cache.valid_for <= cache.policy.safety_margin,
    ensures
        cache.is_stale(now),
{
}

/// A token that has just been installed is stale exactly from the instant at
/// which no more than the safety margin of its validity is left, and at any
/// reading of the clock that lies before its issuance. Until then no request
/// takes an exchange; from then on every request takes one.
pub proof fn installed_token_is_stale_on_time(
    cache: CacheView,
    response: ResponseView,
    issued_at: nat,
    now: nat,
)
    ensures
        ({
            let installed = cache.install(response, issued_at);
            installed.is_stale(now) <==> (now < issued_at || now + installed.policy.safety_margin
                >= issued_at + installed.valid_for)
        }),
{
}

/// A cache that is made of a response whose validity exceeds the safety
/// margin is not stale at the instant of its making.
pub proof fn new_cache_is_not_stale(
    config: ConfigView,
    policy: RefreshPolicy,
    response: ResponseView,
    now: nat,
)
    requires
        response.valid_for(policy.default_valid_for as nat) > policy.safety_margin,
    ensures
        !CacheView::issue(config, policy, response, now).is_stale(now),
{
}

/// Installing a response replaces token, issuance and validity and nothing
/// else; a response that names no expiry gives the validity that the policy
/// holds for that case, which under the standard policy is 300 seconds.
pub proof fn missing_expiry_gives_default(cache: CacheView, response: ResponseView, now: nat)
    requires
        response.expires_in is None,
    ensures
        cache.install(response, now).valid_for == cache.policy.default_valid_for,
        cache.policy == RefreshPolicy::spec_standard() ==> cache.install(response, now).valid_for
            == 300,
        CacheView::issue(cache.config, RefreshPolicy::spec_standard(), response, now).valid_for
            == DEFAULT_VALID_FOR,
{
}

/// A request that takes an exchange which fails leaves the cache as it was
/// and is answered with the error of the exchange, not with a token.
pub proof fn failed_exchange_changes_nothing(cache: CacheView, request: Request)
    requires
        exchanges(cache, request),
        request.outcome is Err,
    ensures
        after(cache, request) == cache,
        answer(cache, request) == Err::<Seq<char>, ExchangeError>(request.outcome->Err_0),
{
}

/// A request that is answered with a token is answered with the token that
/// the cache holds afterwards.
pub proof fn answer_is_current_token(cache: CacheView, request: Request)
    requires
        answer(cache, request) is Ok,
    ensures
        answer(cache, request) == Ok::<Seq<char>, ExchangeError>(after(cache, request).token),
{
}

/// However many requests are answered, the configuration and the policy of
/// the cache stay what they were when it was made.
pub proof fn configuration_never_changes(cache: CacheView, requests: Seq<Request>)
    ensures
        after_all(cache, requests).config == cache.config,
        after_all(cache, requests).policy == cache.policy,
    decreases requests.len(),
{
    if requests.len() > 0 {
        configuration_never_changes(cache, requests.drop_last());
    }
}

/// In every sequence of requests, from whatever cache it starts, a token that
/// is given in answer has not expired at the instant of the answer, provided
/// that it was issued with a validity above zero.
pub proof fn every_answer_is_unexpired(cache: CacheView, requests: Seq<Request>, i: int)
    requires
        0 <= i < requests.len(),
        answer(after_all(cache, requests.take(i)), requests[i]) is Ok,
        after(after_all(cache, requests.take(i)), requests[i]).valid_for > 0,
    ensures
        answered_at(after_all(cache, requests.take(i)), requests[i]) < after(
            after_all(cache, requests.take(i)),
            requests[i],
        ).expires_at(),
{
    let before = after_all(cache, requests.take(i));
    if !exchanges(before, requests[i]) {
        served_token_keeps_margin(before, requests[i].asked_at);
    }
}

/// In every sequence of requests, from whatever cache it starts, a token that
/// is given in answer has at least the safety margin of its validity left at
/// the instant of the answer: 15 seconds where the cache was made under the
/// standard policy. The one exception is a token that was issued with a
/// validity below the margin; such a token comes straight from an exchange,
/// with all of its validity left.
pub proof fn every_answer_keeps_margin(cache: CacheView, requests: Seq<Request>, i: int)
    requires
        0 <= i < requests.len(),
        answer(after_all(cache, requests.take(i)), requests[i]) is Ok,
    ensures
        ({
            let before = after_all(cache, requests.take(i));
            let held = after(before, requests[i]);
            let at = answered_at(before, requests[i]);
            &&& held.policy == cache.policy
            &&& held.valid_for >= held.policy.safety_margin ==> held.remaining(at)
                >= held.policy.safety_margin
            &&& held.valid_for < held.policy.safety_margin ==> exchanges(before, requests[i])
                && held.remaining(at) == held.valid_for
            &&& cache.policy == RefreshPolicy::spec_standard() && held.valid_for >= 15
                ==> held.remaining(at) >= 15
        }),
{
    let before = after_all(cache, requests.take(i));
    configuration_never_changes(cache, requests.take(i));
    if !exchanges(before, requests[i]) {
        served_token_keeps_margin(before, requests[i].asked_at);
    }
}

} // verus!
