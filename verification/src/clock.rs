//! Points in time and surrogate identities.

use vstd::prelude::*;

verus! {

/// A point in time: whole seconds since the Unix epoch and the nanoseconds
/// into that second.
#[derive(Clone, Copy, Debug, PartialEq, Eq, Structural)]
pub struct Timestamp {
    pub seconds: i64,
    pub nanos: u32,
}

impl Timestamp {
    /// Whether `self` lies strictly before `other`.
    pub open spec fn is_before(self, other: Timestamp) -> bool {
        self.seconds < other.seconds || (self.seconds == other.seconds && self.nanos
            < other.nanos)
    }

    /// Whether `self` lies strictly before `other`.
    pub fn before(&self, other: &Timestamp) -> (r: bool)
        ensures
            r == self.is_before(*other),
    {
        self.seconds < other.seconds || (self.seconds == other.seconds && self.nanos
            < other.nanos)
    }
}

/// The first second that has a date: the start of the year -262143.
pub const EARLIEST_EPOCH_SECONDS: i64 = -8_334_601_228_800;

/// The last second that has a date: the end of the year 262142.
pub const LATEST_EPOCH_SECONDS: i64 = 8_210_266_876_799;

/// Whether a number of epoch seconds has a date.
pub open spec fn epoch_representable(seconds: i64) -> bool {
    EARLIEST_EPOCH_SECONDS <= seconds <= LATEST_EPOCH_SECONDS
}

/// Calls `chrono::DateTime::from_timestamp(seconds, 0)`. Not proved: that it
/// accepts exactly the seconds whose date lies in the years -262143 to
/// 262142, the dates that chrono holds, and that the accepted value reads
/// back as the same second with no nanoseconds.
#[verifier::external_body]
pub(crate) fn timestamp_from_epoch(seconds: i64) -> (r: Option<Timestamp>)
    ensures
        r == if epoch_representable(seconds) {
            Some(Timestamp { seconds, nanos: 0 })
        } else {
            None::<Timestamp>
        },
{
    match chrono::DateTime::from_timestamp(seconds, 0) {
        Some(at) => Some(Timestamp { seconds: at.timestamp(), nanos: at.timestamp_subsec_nanos() }),
        None => None,
    }
}

/// Calls `chrono::Utc::now`. Nothing is claimed of the time read. The call
/// panics where the system clock stands before the Unix epoch.
#[verifier::external_body]
pub(crate) fn current_time() -> (r: Timestamp) {
    let at = chrono::Utc::now();
    Timestamp { seconds: at.timestamp(), nanos: at.timestamp_subsec_nanos() }
}

/// Whether 128 bits are a random identity as RFC 4122 lays it out: the
/// version is 4 and the variant is the RFC's own.
pub open spec fn is_random_identity(id: u128) -> bool {
    id & 0x0000_0000_0000_F000_C000_0000_0000_0000 == 0x0000_0000_0000_4000_8000_0000_0000_0000
}

/// Calls `uuid::Uuid::new_v4` and hands the identity out as its 128 bits.
/// Not proved: that version and variant are set as [`is_random_identity`]
/// says. Nothing is claimed of the other bits: they are random. The call
/// panics where the system gives no random bytes.
#[verifier::external_body]
pub(crate) fn fresh_id() -> (r: u128)
    ensures
        is_random_identity(r),
{
    uuid::Uuid::new_v4().as_u128()
}

/// The time that stands for an event: the converted epoch where the
/// conversion succeeded, else the fallback.
pub open spec fn spec_settle_time(converted: Option<Timestamp>, fallback: Timestamp) -> Timestamp {
    match converted {
        Some(at) => at,
        None => fallback,
    }
}

/// Picks the converted time, or the fallback where the conversion failed.
pub fn settle_time(converted: Option<Timestamp>, fallback: Timestamp) -> (r: Timestamp)
    ensures
        r == spec_settle_time(converted, fallback),
{
    match converted {
        Some(at) => at,
        None => fallback,
    }
}

/// The time of an event given in epoch seconds, as [`event_time`] returns it.
pub open spec fn spec_event_time(seconds: i64, fallback: Timestamp) -> Timestamp {
    if epoch_representable(seconds) {
        Timestamp { seconds, nanos: 0 }
    } else {
        fallback
    }
}

/// Converts epoch seconds to a point in time; an epoch that is out of range
/// yields the fallback, the current processing time.
pub fn event_time(seconds: i64, fallback: Timestamp) -> (r: Timestamp)
    ensures
        r == spec_event_time(seconds, fallback),
{
    settle_time(timestamp_from_epoch(seconds), fallback)
}

} // verus!
