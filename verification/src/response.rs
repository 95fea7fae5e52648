use vstd::prelude::*;

verus! {

/// What a successful exchange yields: the access token and, where the
/// authorization server named one, the number of seconds for which the token
/// is valid.
#[derive(PartialEq, Eq)]
pub struct TokenResponse {
    /// The bearer token.
    pub access_token: String,
    /// The validity of the token in seconds, if the server named one.
    pub expires_in: Option<u64>,
}

/// A [`TokenResponse`] as a mathematical value.
pub struct ResponseView {
    pub access_token: Seq<char>,
    pub expires_in: Option<nat>,
}

impl ResponseView {
    /// The validity that the response stands for: the one it names, or
    /// `fallback` where it names none.
    pub open spec fn valid_for(self, fallback: nat) -> nat {
        match self.expires_in {
            Some(seconds) => seconds,
            None => fallback,
        }
    }
}

impl View for TokenResponse {
    type V = ResponseView;

    open spec fn view(&self) -> ResponseView {
        ResponseView {
            access_token: self.access_token@,
            expires_in: match self.expires_in {
                Some(seconds) => Some(seconds as nat),
                None => None,
            },
        }
    }
}

impl Clone for TokenResponse {
    fn clone(&self) -> (copy: TokenResponse)
        ensures
            copy == *self,
    {
        TokenResponse { access_token: self.access_token.clone(), expires_in: self.expires_in }
    }
}

impl TokenResponse {
    /// A response that carries `access_token` and the expiry `expires_in`.
    pub fn new(access_token: String, expires_in: Option<u64>) -> (response: TokenResponse)
        ensures
            response.access_token == access_token,
            response.expires_in == expires_in,
    {
        TokenResponse { access_token, expires_in }
    }

    /// The validity in seconds that the response stands for: the one it
    /// names, or `fallback` where it names none.
    pub fn valid_for(&self, fallback: u64) -> (seconds: u64)
        ensures
            seconds as nat == self@.valid_for(fallback as nat),
    {
        match self.expires_in {
            Some(seconds) => seconds,
            None => fallback,
        }
    }
}

} // verus!
