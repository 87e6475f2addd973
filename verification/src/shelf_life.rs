//! Expiration of a time-limited reward, judged against an injected clock.

use vstd::prelude::*;
use crate::timestamp::{Instant, Timestamp};

verus! {

/// The instant behind an optional timestamp.
pub open spec fn instant_of(timestamp: Option<Timestamp>) -> Option<Instant> {
    match timestamp {
        Some(t) => Some(t@),
        None => None,
    }
}

/// A shelf life has run out when it is present and strictly earlier than `now`.
pub open spec fn expired(shelf_life: Option<Instant>, now: Instant) -> bool {
    shelf_life matches Some(end) && end.is_before(now)
}

/// The moment at which a shelf life ran out: the shelf life itself once it
/// has expired, nothing before that.
pub open spec fn expiry(shelf_life: Option<Instant>, now: Instant) -> Option<Instant> {
    if expired(shelf_life, now) {
        shelf_life
    } else {
        None
    }
}

/// Whether `timestamp` is present and strictly earlier than `now`.
pub fn is_expired(timestamp: Option<Timestamp>, now: Timestamp) -> (r: bool)
    ensures
        r == expired(instant_of(timestamp), now@),
{
    match timestamp {
        Some(end) => end.is_before(&now),
        None => false,
    }
}

/// The timestamp itself if it has expired by `now`, nothing otherwise.
pub fn expired_at(timestamp: Option<Timestamp>, now: Timestamp) -> (r: Option<Timestamp>)
    ensures
        instant_of(r) == expiry(instant_of(timestamp), now@),
        r is Some ==> r == timestamp,
{
    if is_expired(timestamp, now) {
        timestamp
    } else {
        None
    }
}

/// A reward without a shelf life never expires; one with a shelf life has
/// expired exactly when that lies strictly before now; and whenever a shelf
/// life has not expired there is no moment of expiry to report, while an
/// expired one reports itself.
pub proof fn lemma_expiry(shelf_life: Option<Instant>, now: Instant)
    ensures
        shelf_life is None ==> !expired(shelf_life, now),
        shelf_life matches Some(end) ==> (expired(shelf_life, now) <==> end.is_before(now)),
        !expired(shelf_life, now) ==> expiry(shelf_life, now) is None,
        expired(shelf_life, now) ==> expiry(shelf_life, now) == shelf_life,
{
}

} // verus!
