//! Freshness: a notification is accepted only while its claimed
//! publish time lies less than a minute in the past.
use vstd::prelude::*;

verus! {

/// How long a notification stays fresh, in milliseconds.
pub const FRESHNESS_WINDOW_MS: i128 = 60000;

/// Freshness at a given clock reading (milliseconds since the Unix epoch).
/// The age `now_ms - published` is compared with one minute; a publish time
/// in the future has a negative age and is accepted on purpose: the check
/// rejects staleness only, not clock skew the other way.
pub open spec fn fresh_at(published: int, now_ms: int) -> bool {
    now_ms - published < FRESHNESS_WINDOW_MS
}

/// Freshness when the clock may be unreadable: without a reading nothing is
/// fresh.
pub open spec fn fresh_with(published: int, now_ms: Option<u128>) -> bool {
    match now_ms {
        Some(n) => fresh_at(published, n as int),
        None => false,
    }
}

/// Decides freshness of `published` at the clock reading `now_ms`.
pub fn is_fresh_at(published: i64, now_ms: u128) -> (r: bool)
    ensures
        r == fresh_at(published as int, now_ms as int),
{
    let limit: i128 = published as i128 + FRESHNESS_WINDOW_MS;
    if limit <= 0 {
        false
    } else {
        now_ms < limit as u128
    }
}

/// Decides freshness of a clock reading that may be missing.
pub fn is_fresh_with(published: i64, now_ms: Option<u128>) -> (r: bool)
    ensures
        r == fresh_with(published as int, now_ms),
{
    match now_ms {
        Some(n) => is_fresh_at(published, n),
        None => false,
    }
}

/// Relies on std's `SystemTime::now` and `duration_since(UNIX_EPOCH)`: the
/// wall clock in milliseconds since the Unix epoch, or `None` when the clock
/// stands before the epoch. Nothing is promised of the value.
#[verifier::external_body]
pub(crate) fn unix_time_millis() -> (r: Option<u128>) {
    match std::time::SystemTime::now().duration_since(std::time::UNIX_EPOCH) {
        Ok(d) => Some(d.as_millis()),
        Err(_) => None,
    }
}

/// Whether a notification published at `published` (milliseconds since the
/// epoch) is fresh now. The answer is freshness at some clock reading.
pub fn is_request_new_enough(published: i64) -> (r: bool)
    ensures
        exists|now_ms: Option<u128>| r == fresh_with(published as int, now_ms),
{
    let now_ms = unix_time_millis();
    let r = is_fresh_with(published, now_ms);
    assert(r == fresh_with(published as int, now_ms));
    r
}

} // verus!
