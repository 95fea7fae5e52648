//! A client-credentials token cache.
//!
//! The cache holds one bearer token obtained through the OAuth2 client
//! credentials grant, together with the instant at which it was issued and the
//! time for which it is valid, and decides on each request whether the cached
//! token may still be handed out or a new exchange with the authorization
//! server is due.
//!
//! The library performs no network traffic and reads no clock. The caller
//! carries out the exchange and passes its outcome, and the current reading of
//! its clock in whole seconds, to the functions here:
//!
//! 1. [`ExchangeConfig::new`] checks the four configuration strings.
//! 2. The caller performs the first exchange; [`AuthToken::new`] turns its
//!    outcome into a cache that already holds a token.
//! 3. [`AuthToken::token`] either serves the cached token or asks for an
//!    exchange; [`AuthToken::refresh`] takes the outcome of that exchange.

pub mod cache;
pub mod config;
pub mod error;
pub mod laws;
pub mod policy;
pub mod response;

pub use cache::{AuthToken, CacheView, Step};
pub use config::{ConfigView, ExchangeConfig};
pub use error::ExchangeError;
pub use policy::{RefreshPolicy, DEFAULT_VALID_FOR, SAFETY_MARGIN};
pub use response::{ResponseView, TokenResponse};
