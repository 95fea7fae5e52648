use client_auth::{ExchangeConfig, ExchangeError};

fn make(auth_endpoint: &str, token_endpoint: &str) -> Result<ExchangeConfig, ExchangeError> {
    ExchangeConfig::new(
        "my-client".to_string(),
        "s3cr3t".to_string(),
        auth_endpoint.to_string(),
        token_endpoint.to_string(),
    )
}

fn rejected(made: Result<ExchangeConfig, ExchangeError>) -> bool {
    match made {
        Ok(_) => false,
        Err(error) => error == ExchangeError::InvalidUrl,
    }
}

#[test]
fn valid_endpoints_make_a_configuration() {
    let config = match make("https://login.example.org/oauth/authorize", "https://login.example.org/oauth/token") {
        Ok(config) => config,
        Err(_) => panic!("both endpoints are valid URLs"),
    };
    assert_eq!(config.client_id(), "my-client");
    assert_eq!(config.client_secret(), "s3cr3t");
    assert_eq!(config.auth_endpoint(), "https://login.example.org/oauth/authorize");
    assert_eq!(config.token_endpoint(), "https://login.example.org/oauth/token");
}

#[test]
fn endpoints_are_kept_as_given_not_normalised() {
    let config = match make("HTTPS://Login.Example.ORG:443/a/../b", "http://127.0.0.1:8080") {
        Ok(config) => config,
        Err(_) => panic!("both endpoints are valid URLs"),
    };
    assert_eq!(config.auth_endpoint(), "HTTPS://Login.Example.ORG:443/a/../b");
    assert_eq!(config.token_endpoint(), "http://127.0.0.1:8080");
}

#[test]
fn malformed_authorization_endpoint_is_rejected() {
    assert!(rejected(make("not a url", "https://login.example.org/oauth/token")));
    assert!(rejected(make("", "https://login.example.org/oauth/token")));
    assert!(rejected(make("/oauth/authorize", "https://login.example.org/oauth/token")));
    assert!(rejected(make("https://", "https://login.example.org/oauth/token")));
}

#[test]
fn malformed_token_endpoint_is_rejected() {
    assert!(rejected(make("https://login.example.org/oauth/authorize", "not a url")));
    assert!(rejected(make("https://login.example.org/oauth/authorize", "")));
    assert!(rejected(make("https://login.example.org/oauth/authorize", "login.example.org/token")));
    assert!(rejected(make("https://login.example.org/oauth/authorize", "https://login.example.org:99999/token")));
}

#[test]
fn two_malformed_endpoints_are_rejected() {
    assert!(rejected(make("authorize", "token")));
}

#[test]
fn configuration_follows_the_two_verdicts() {
    let build = |auth_ok: bool, token_ok: bool| {
        ExchangeConfig::with_verdicts(
            "id".to_string(),
            "secret".to_string(),
            "urn:auth".to_string(),
            "urn:token".to_string(),
            auth_ok,
            token_ok,
        )
    };
    assert!(rejected(build(false, false)));
    assert!(rejected(build(false, true)));
    assert!(rejected(build(true, false)));
    match build(true, true) {
        Ok(config) => {
            assert_eq!(config.client_id(), "id");
            assert_eq!(config.client_secret(), "secret");
            assert_eq!(config.auth_endpoint(), "urn:auth");
            assert_eq!(config.token_endpoint(), "urn:token");
        }
        Err(_) => panic!("both verdicts were favourable"),
    }
}

#[test]
fn clone_of_a_configuration_holds_the_same_strings() {
    let config = match make("https://a.example/authorize", "https://a.example/token") {
        Ok(config) => config,
        Err(_) => panic!("both endpoints are valid URLs"),
    };
    let copy = config.clone();
    assert_eq!(copy.client_id(), config.client_id());
    assert_eq!(copy.client_secret(), config.client_secret());
    assert_eq!(copy.auth_endpoint(), config.auth_endpoint());
    assert_eq!(copy.token_endpoint(), config.token_endpoint());
}
