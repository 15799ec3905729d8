//! Decisions of the background refresh task.
//!
//! The task reads the current session's expiry, sleeps until shortly
//! before it, refreshes, republishes on success and backs off on failure
//! without ever giving up. The decisions are computed here; performing
//! the sleeps and the exchanges is the surrounding runtime's part.

use vstd::prelude::*;

use crate::token::Token;

verus! {

/// Seconds subtracted from the token's lifetime to refresh before actual
/// expiry.
pub const REFRESH_SAFETY_MARGIN_SECS: u64 = 60;

/// Seconds to wait after a failed refresh before retrying it.
pub const REFRESH_BACKOFF_SECS: u64 = 60;

/// Seconds to idle when no session has been published yet.
pub const STARTUP_IDLE_SECS: u64 = 60;

/// How long to sleep before refreshing a session that expires at
/// `expires_at`: the time left until the safety margin is reached, and
/// zero -- refresh immediately -- once inside the margin or past expiry.
pub open spec fn spec_sleep_duration(expires_at: u64, now: u64, margin: u64) -> u64 {
    if expires_at >= now + margin {
        (expires_at - now - margin) as u64
    } else {
        0
    }
}

pub fn sleep_duration(expires_at: u64, now: u64, margin: u64) -> (r: u64)
    ensures
        r == spec_sleep_duration(expires_at, now, margin),
{
    if margin <= expires_at && now <= expires_at - margin {
        expires_at - margin - now
    } else {
        0
    }
}

/// What the refresh task does next.
#[derive(PartialEq, Eq, Structural, Debug)]
pub enum SchedulerStep {
    /// No session is published yet: idle this many seconds, then look
    /// again.
    Idle(u64),
    /// Sleep this many seconds, then refresh the current session.
    RefreshAfter(u64),
}

/// Plans one round of the refresh task at instant `now`.
pub fn plan_step(current: Option<&Token>, now: u64) -> (r: SchedulerStep)
    ensures
        current is None ==> r == SchedulerStep::Idle(STARTUP_IDLE_SECS),
        current matches Some(t) ==> r == SchedulerStep::RefreshAfter(
            spec_sleep_duration(t.expires_at, now, REFRESH_SAFETY_MARGIN_SECS),
        ),
{
    match current {
        None => SchedulerStep::Idle(STARTUP_IDLE_SECS),
        Some(t) => SchedulerStep::RefreshAfter(
            sleep_duration(t.expires_at, now, REFRESH_SAFETY_MARGIN_SECS),
        ),
    }
}

/// How a finished refresh round ends.
#[derive(Debug)]
pub enum RefreshResolution {
    /// Publish this new session and plan the next round.
    Publish(Token),
    /// The refresh failed: retry it after this many seconds; the task
    /// never terminates on failure.
    RetryAfter(u64),
}

/// Resolves a refresh round from the session it obtained, if any: a new
/// session is published, and failure is answered with the fixed backoff.
pub fn after_refresh(outcome: Option<Token>) -> (r: RefreshResolution)
    ensures
        outcome matches Some(t) ==> r == RefreshResolution::Publish(t),
        outcome is None ==> r == RefreshResolution::RetryAfter(REFRESH_BACKOFF_SECS),
{
    match outcome {
        Some(t) => RefreshResolution::Publish(t),
        None => RefreshResolution::RetryAfter(REFRESH_BACKOFF_SECS),
    }
}

} // verus!
