//! The session value: an access token, an optional refresh token and an
//! absolute expiry instant, immutable once constructed.
//!
//! Instants are seconds of a monotonic clock chosen by the caller; a
//! refresh produces a brand-new value, never an in-place change.

use vstd::prelude::*;

verus! {

/// One authenticated session with the upstream provider.
#[derive(Debug)]
pub struct Token {
    pub access_token: String,
    pub refresh_token: Option<String>,
    /// Instant at which the access token stops being valid, in seconds.
    pub expires_at: u64,
}

impl Clone for Token {
    fn clone(&self) -> (r: Self)
        ensures
            r == *self,
    {
        Token {
            access_token: self.access_token.clone(),
            refresh_token: match &self.refresh_token {
                Some(s) => Some(s.clone()),
                None => None,
            },
            expires_at: self.expires_at,
        }
    }
}

impl Token {
    /// Builds the session a token response denotes, acquired at instant
    /// `now`: its expiry is the acquisition instant plus the reported
    /// lifetime, saturating at the clock's maximum.
    pub fn from_response(
        access_token: String,
        refresh_token: Option<String>,
        expires_in_secs: u64,
        now: u64,
    ) -> (t: Token)
        ensures
            t.access_token == access_token,
            t.refresh_token == refresh_token,
            t.expires_at == if now + expires_in_secs <= u64::MAX {
                (now + expires_in_secs) as u64
            } else {
                u64::MAX
            },
    {
        Token { access_token, refresh_token, expires_at: now.saturating_add(expires_in_secs) }
    }

    /// The session is past its expiry instant at `now`.
    pub fn is_expired(&self, now: u64) -> (r: bool)
        ensures
            r == (self.expires_at < now),
    {
        self.expires_at < now
    }
}

} // verus!
