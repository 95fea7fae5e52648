use vstd::prelude::*;

verus! {

/// A cached token is served only while more than this many seconds of its
/// validity are left.
pub const SAFETY_MARGIN: u64 = 15;

/// Seconds for which a token is taken to be valid when the response that
/// carried it names no expiry.
pub const DEFAULT_VALID_FOR: u64 = 300;

/// The two durations, in seconds, that govern when a token is refreshed.
#[derive(Clone, Copy, Debug, PartialEq, Eq, Structural)]
pub struct RefreshPolicy {
    /// A token with no more than this much validity left is stale.
    pub safety_margin: u64,
    /// The validity assumed for a token whose response names no expiry.
    pub default_valid_for: u64,
}

impl RefreshPolicy {
    /// The policy made of [`SAFETY_MARGIN`] and [`DEFAULT_VALID_FOR`].
    pub open spec fn spec_standard() -> RefreshPolicy {
        RefreshPolicy { safety_margin: SAFETY_MARGIN, default_valid_for: DEFAULT_VALID_FOR }
    }

    /// The policy made of [`SAFETY_MARGIN`] and [`DEFAULT_VALID_FOR`].
    #[verifier::when_used_as_spec(spec_standard)]
    pub fn standard() -> (policy: RefreshPolicy)
        ensures
            policy == Self::spec_standard(),
    {
        RefreshPolicy { safety_margin: SAFETY_MARGIN, default_valid_for: DEFAULT_VALID_FOR }
    }

    /// Whether a token issued at `issued_at` for `valid_for` seconds must be
    /// replaced before it is handed out at `now`.
    ///
    /// It is stale once the time elapsed since its issuance has reached
    /// `valid_for - safety_margin`; a validity no longer than the margin makes
    /// it stale at once. A reading of the clock that lies before the
    /// issuance tells nothing about the token's age, and counts as stale too.
    pub open spec fn stale(self, issued_at: nat, valid_for: nat, now: nat) -> bool {
        now < issued_at || now - issued_at >= valid_for - self.safety_margin
    }

    /// Computes [`RefreshPolicy::stale`] without leaving the range of `u64`.
    pub fn is_stale(&self, issued_at: u64, valid_for: u64, now: u64) -> (stale: bool)
        ensures
            stale == self.stale(issued_at as nat, valid_for as nat, now as nat),
    {
        if now < issued_at || valid_for <= self.safety_margin {
            true
        } else {
            now - issued_at >= valid_for - self.safety_margin
        }
    }
}

impl Default for RefreshPolicy {
    fn default() -> (policy: RefreshPolicy)
        ensures
            policy == RefreshPolicy::spec_standard(),
    {
        RefreshPolicy::standard()
    }
}

} // verus!
