use crate::config::{ConfigView, ExchangeConfig};
use crate::error::ExchangeError;
use crate::policy::{RefreshPolicy, DEFAULT_VALID_FOR};
use crate::response::{ResponseView, TokenResponse};
use vstd::prelude::*;

verus! {

/// A cached bearer token with the instant of its issuance and its validity.
///
/// A cache comes into being only through a successful first exchange, so it
/// always holds a token. Instants are readings of the caller's clock in whole
/// seconds; validity is counted in seconds.
pub struct AuthToken {
    config: ExchangeConfig,
    policy: RefreshPolicy,
    token: String,
    issued_at: u64,
    valid_for: u64,
}

/// An [`AuthToken`] as a mathematical value.
pub struct CacheView {
    /// The configuration the cache was made with.
    pub config: ConfigView,
    /// The durations that govern refreshing.
    pub policy: RefreshPolicy,
    /// The token issued last.
    pub token: Seq<char>,
    /// When that token was issued.
    pub issued_at: nat,
    /// For how many seconds from then it is valid.
    pub valid_for: nat,
}

impl CacheView {
    /// The cache that holds the token of `response`, issued at `now`.
    pub open spec fn issue(
        config: ConfigView,
        policy: RefreshPolicy,
        response: ResponseView,
        now: nat,
    ) -> CacheView {
        CacheView {
            config,
            policy,
            token: response.access_token,
            issued_at: now,
            valid_for: response.valid_for(policy.default_valid_for as nat),
        }
    }

    /// The cache after `response` arrived at `now`: token, issuance and
    /// validity are those of the response, the rest is kept.
    pub open spec fn install(self, response: ResponseView, now: nat) -> CacheView {
        Self::issue(self.config, self.policy, response, now)
    }

    /// The instant at which the cached token expires.
    pub open spec fn expires_at(self) -> nat {
        self.issued_at + self.valid_for
    }

    /// The validity that is left at `now`; negative once the token has
    /// expired.
    pub open spec fn remaining(self, now: nat) -> int {
        self.issued_at + self.valid_for - now
    }

    /// Whether the cached token must be replaced before a request made at
    /// `now` is answered.
    pub open spec fn is_stale(self, now: nat) -> bool {
        self.policy.stale(self.issued_at, self.valid_for, now)
    }
}

impl View for AuthToken {
    type V = CacheView;

    closed spec fn view(&self) -> CacheView {
        CacheView {
            config: self.config@,
            policy: self.policy,
            token: self.token@,
            issued_at: self.issued_at as nat,
            valid_for: self.valid_for as nat,
        }
    }
}

/// What the caller has to do to answer a request for the token.
#[must_use]
#[derive(PartialEq, Eq)]
pub enum Step {
    /// Hand out this token: it is the cached one, and it is not stale.
    Serve(String),
    /// Perform an exchange and pass its outcome to [`AuthToken::refresh`].
    Exchange,
}

impl AuthToken {
    /// Makes the cache from the outcome of the first exchange, which arrived
    /// at `now`, under the standard policy.
    ///
    /// A failed exchange makes no cache: its error is returned as it is.
    pub fn new(
        config: ExchangeConfig,
        outcome: Result<TokenResponse, ExchangeError>,
        now: u64,
    ) -> (made: Result<AuthToken, ExchangeError>)
        ensures
            outcome matches Ok(response) ==> (made matches Ok(cache)
                && cache@ == CacheView::issue(
                config@,
                RefreshPolicy::spec_standard(),
                response@,
                now as nat,
            )),
            outcome matches Ok(response) && response.expires_in is None
                ==> (made matches Ok(cache) && cache@.valid_for == DEFAULT_VALID_FOR),
            outcome matches Err(error) ==> (made matches Err(returned) && returned == error),
    {
        Self::with_policy(config, RefreshPolicy::standard(), outcome, now)
    }

    /// Makes the cache from the outcome of the first exchange, which arrived
    /// at `now`, under `policy`.
    ///
    /// A failed exchange makes no cache: its error is returned as it is.
    pub fn with_policy(
        config: ExchangeConfig,
        policy: RefreshPolicy,
        outcome: Result<TokenResponse, ExchangeError>,
        now: u64,
    ) -> (made: Result<AuthToken, ExchangeError>)
        ensures
            outcome matches Ok(response) ==> (made matches Ok(cache)
                && cache@ == CacheView::issue(config@, policy, response@, now as nat)),
            outcome matches Ok(response) && response.expires_in is None
                ==> (made matches Ok(cache) && cache@.valid_for == policy.default_valid_for),
            outcome matches Err(error) ==> (made matches Err(returned) && returned == error),
    {
        match outcome {
            Ok(response) => {
                let valid_for = response.valid_for(policy.default_valid_for);
                Ok(
                    AuthToken {
                        config,
                        policy,
                        token: response.access_token,
                        issued_at: now,
                        valid_for,
                    },
                )
            },
            Err(error) => Err(error),
        }
    }

    /// Answers a request for the token made at `now`.
    ///
    /// If the cached token is stale at `now` an exchange is due, and nothing
    /// is served. Otherwise a copy of the cached token is served and no
    /// exchange is asked for.
    pub fn token(&self, now: u64) -> (step: Step)
        ensures
            self@.is_stale(now as nat) ==> step is Exchange,
            !self@.is_stale(now as nat) ==> (step matches Step::Serve(token)
                && token@ == self@.token),
    {
        if self.is_stale(now) {
            Step::Exchange
        } else {
            Step::Serve(self.token.clone())
        }
    }

    /// Takes the outcome of an exchange that arrived at `now`.
    ///
    /// On success the token, its issuance and its validity are replaced
    /// together by those of the response, and a copy of the new token is
    /// returned. On failure the cache is left exactly as it was and the error
    /// is returned as it is; the next request finds the old token as stale as
    /// before, or more.
    pub fn refresh(
        &mut self,
        outcome: Result<TokenResponse, ExchangeError>,
        now: u64,
    ) -> (served: Result<String, ExchangeError>)
        ensures
            outcome matches Ok(response) ==> (served matches Ok(token)
                && token@ == response@.access_token
                && final(self)@ == old(self)@.install(response@, now as nat)),
            outcome matches Ok(response) && response.expires_in is None
                ==> final(self)@.valid_for == old(self)@.policy.default_valid_for,
            outcome matches Err(error) ==> (served matches Err(returned)
                && returned == error
                && *final(self) == *old(self)),
    {
        match outcome {
            Ok(response) => {
                let valid_for = response.valid_for(self.policy.default_valid_for);
                let token = response.access_token;
                self.token = token.clone();
                self.issued_at = now;
                self.valid_for = valid_for;
                Ok(token)
            },
            Err(error) => Err(error),
        }
    }

    /// Whether the cached token must be replaced before a request made at
    /// `now` is answered.
    pub fn is_stale(&self, now: u64) -> (stale: bool)
        ensures
            stale == self@.is_stale(now as nat),
    {
        self.policy.is_stale(self.issued_at, self.valid_for, now)
    }

    /// The configuration the cache was made with.
    pub fn config(&self) -> (config: &ExchangeConfig)
        ensures
            config@ == self@.config,
    {
        &self.config
    }

    /// The durations that govern refreshing.
    pub fn policy(&self) -> (policy: RefreshPolicy)
        ensures
            policy == self@.policy,
    {
        self.policy
    }

    /// The token issued last, whether or not it is stale by now.
    pub fn current_token(&self) -> (token: &str)
        ensures
            token@ == self@.token,
    {
        self.token.as_str()
    }

    /// The instant at which the cached token was issued.
    pub fn issued_at(&self) -> (instant: u64)
        ensures
            instant as nat == self@.issued_at,
    {
        self.issued_at
    }

    /// The number of seconds from its issuance for which the cached token is
    /// valid.
    pub fn valid_for(&self) -> (seconds: u64)
        ensures
            seconds as nat == self@.valid_for,
    {
        self.valid_for
    }
}

} // verus!
