use vstd::prelude::*;

verus! {

/// Why a token exchange, or the preparation for one, failed.
///
/// The cache makes no difference between failures that may pass and failures
/// that will not: each is handed to the caller as it came.
#[derive(Clone, Copy, Debug, PartialEq, Eq, Structural)]
pub enum ExchangeError {
    /// An endpoint of the configuration is not a syntactically valid URL.
    InvalidUrl,
    /// The request did not reach the token endpoint, or no answer came back.
    Transport,
    /// The token endpoint answered with a status other than success.
    Status,
    /// The answer of the token endpoint could not be read as a token response.
    MalformedResponse,
}

} // verus!
