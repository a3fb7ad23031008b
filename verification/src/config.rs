use vstd::prelude::*;

verus! {

pub const SECONDS_PER_DAY: i64 = 86_400;

/// The longest session lifetime whose length in seconds still fits the
/// machine's integers.
pub const MAX_SESSION_DAYS: i64 = 106_751_991_167_300;

/// The parameters of the authentication core.
#[derive(Debug)]
pub struct Config {
    /// The application's own origin, with its trailing slash. Links are
    /// built on it, and requests that change state must come from it.
    pub base_url: String,
    pub session_token_cookie_name: String,
    /// How long a session lasts from its start or its last renewal.
    pub session_duration_days: i64,
    /// A session with no more than this left is renewed on use.
    pub session_renew_after_days: i64,
}

impl Config {
    /// Whether the session parameters make sense: the renewal threshold is
    /// not negative and strictly below the lifetime, so that a session is
    /// renewed before it expires, not after.
    pub open spec fn valid(&self) -> bool {
        0 <= self.session_renew_after_days < self.session_duration_days <= MAX_SESSION_DAYS
    }

    /// The lifetime of a session in seconds.
    pub open spec fn ttl(&self) -> int {
        SECONDS_PER_DAY * self.session_duration_days
    }

    /// The renewal threshold in seconds.
    pub open spec fn threshold(&self) -> int {
        SECONDS_PER_DAY * self.session_renew_after_days
    }

    pub fn is_valid(&self) -> (ok: bool)
        ensures
            ok == self.valid(),
    {
        0 <= self.session_renew_after_days && self.session_renew_after_days
            < self.session_duration_days && self.session_duration_days <= MAX_SESSION_DAYS
    }

    /// The lifetime of a session in seconds.
    pub fn session_ttl_seconds(&self) -> (secs: i64)
        requires
            self.valid(),
        ensures
            secs == self.ttl(),
            secs > 0,
    {
        SECONDS_PER_DAY * self.session_duration_days
    }

    /// The renewal threshold in seconds.
    pub fn renew_threshold_seconds(&self) -> (secs: i64)
        requires
            self.valid(),
        ensures
            secs == self.threshold(),
            0 <= secs < self.ttl(),
    {
        SECONDS_PER_DAY * self.session_renew_after_days
    }
}

} // verus!
