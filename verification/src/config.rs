use crate::error::ExchangeError;
use vstd::prelude::*;

verus! {

/// Whether `oauth2::AuthUrl::new` returns `Ok` for the text `url`, which it
/// does exactly when `url::Url::parse` accepts it as an absolute URL.
pub uninterp spec fn auth_url_parses(url: Seq<char>) -> bool;

/// Whether `oauth2::TokenUrl::new` returns `Ok` for the text `url`, which it
/// does exactly when `url::Url::parse` accepts it as an absolute URL.
pub uninterp spec fn token_url_parses(url: Seq<char>) -> bool;

/// Hands a copy of `url` to `oauth2::AuthUrl::new` and tells whether the
/// call returned `Ok`. The contract only gives that answer its name; what
/// the parser accepts is not stated here.
#[verifier::external_body]
fn accepts_auth_url(url: &String) -> (accepted: bool)
    ensures
        accepted == auth_url_parses(url@),
{
    oauth2::AuthUrl::new(url.clone()).is_ok()
}

/// Hands a copy of `url` to `oauth2::TokenUrl::new` and tells whether the
/// call returned `Ok`. The contract only gives that answer its name; what
/// the parser accepts is not stated here.
#[verifier::external_body]
fn accepts_token_url(url: &String) -> (accepted: bool)
    ensures
        accepted == token_url_parses(url@),
{
    oauth2::TokenUrl::new(url.clone()).is_ok()
}

/// What a client presents to the authorization server: its identifier, its
/// secret, and the two endpoints. Nothing changes a configuration once it is
/// made.
pub struct ExchangeConfig {
    client_id: String,
    client_secret: String,
    auth_endpoint: String,
    token_endpoint: String,
}

/// An [`ExchangeConfig`] as a mathematical value.
pub struct ConfigView {
    pub client_id: Seq<char>,
    pub client_secret: Seq<char>,
    pub auth_endpoint: Seq<char>,
    pub token_endpoint: Seq<char>,
}

impl View for ExchangeConfig {
    type V = ConfigView;

    closed spec fn view(&self) -> ConfigView {
        ConfigView {
            client_id: self.client_id@,
            client_secret: self.client_secret@,
            auth_endpoint: self.auth_endpoint@,
            token_endpoint: self.token_endpoint@,
        }
    }
}

impl Clone for ExchangeConfig {
    fn clone(&self) -> (copy: ExchangeConfig)
        ensures
            copy == *self,
    {
        ExchangeConfig {
            client_id: self.client_id.clone(),
            client_secret: self.client_secret.clone(),
            auth_endpoint: self.auth_endpoint.clone(),
            token_endpoint: self.token_endpoint.clone(),
        }
    }
}

impl ExchangeConfig {
    /// Makes a configuration of the four strings, provided that both
    /// endpoints are syntactically valid URLs.
    ///
    /// Fails with [`ExchangeError::InvalidUrl`] if the URL parser of the
    /// `oauth2` crate rejects either endpoint, and on no other input.
    pub fn new(
        client_id: String,
        client_secret: String,
        auth_endpoint: String,
        token_endpoint: String,
    ) -> (made: Result<ExchangeConfig, ExchangeError>)
        ensures
            auth_url_parses(auth_endpoint@) && token_url_parses(token_endpoint@)
                ==> (made matches Ok(config) && config@ == (ConfigView {
                client_id: client_id@,
                client_secret: client_secret@,
                auth_endpoint: auth_endpoint@,
                token_endpoint: token_endpoint@,
            })),
            !(auth_url_parses(auth_endpoint@) && token_url_parses(token_endpoint@))
                ==> made == Err::<ExchangeConfig, ExchangeError>(ExchangeError::InvalidUrl),
    {
        let auth_ok = accepts_auth_url(&auth_endpoint);
        let token_ok = accepts_token_url(&token_endpoint);
        Self::with_verdicts(
            client_id,
            client_secret,
            auth_endpoint,
            token_endpoint,
            auth_ok,
            token_ok,
        )
    }

    /// Makes a configuration of the four strings once each endpoint has been
    /// judged: `auth_ok` and `token_ok` say whether the authorization and the
    /// token endpoint were found to be valid URLs.
    ///
    /// Fails with [`ExchangeError::InvalidUrl`] unless both were.
    pub fn with_verdicts(
        client_id: String,
        client_secret: String,
        auth_endpoint: String,
        token_endpoint: String,
        auth_ok: bool,
        token_ok: bool,
    ) -> (made: Result<ExchangeConfig, ExchangeError>)
        ensures
            auth_ok && token_ok ==> (made matches Ok(config) && config@ == (ConfigView {
                client_id: client_id@,
                client_secret: client_secret@,
                auth_endpoint: auth_endpoint@,
                token_endpoint: token_endpoint@,
            })),
            !(auth_ok && token_ok)
                ==> made == Err::<ExchangeConfig, ExchangeError>(ExchangeError::InvalidUrl),
    {
        if auth_ok && token_ok {
            Ok(ExchangeConfig { client_id, client_secret, auth_endpoint, token_endpoint })
        } else {
            Err(ExchangeError::InvalidUrl)
        }
    }

    /// The client identifier.
    pub fn client_id(&self) -> (text: &str)
        ensures
            text@ == self@.client_id,
    {
        self.client_id.as_str()
    }

    /// The client secret.
    pub fn client_secret(&self) -> (text: &str)
        ensures
            text@ == self@.client_secret,
    {
        self.client_secret.as_str()
    }

    /// The URL of the authorization endpoint, as it was given.
    pub fn auth_endpoint(&self) -> (text: &str)
        ensures
            text@ == self@.auth_endpoint,
    {
        self.auth_endpoint.as_str()
    }

    /// The URL of the token endpoint, as it was given.
    pub fn token_endpoint(&self) -> (text: &str)
        ensures
            text@ == self@.token_endpoint,
    {
        self.token_endpoint.as_str()
    }
}

} // verus!
