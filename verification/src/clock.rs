//! Monotonic clock readings, taken through `std::time::Instant`.

use vstd::prelude::*;

verus! {

#[verifier::external_type_specification]
#[verifier::external_body]
pub struct ExInstant(std::time::Instant);

/// `Instant::now`: the current reading of the monotonic clock.
/// Nothing is promised of the value: it depends on the time of the call.
#[verifier::external_body]
pub(crate) fn instant_now() -> std::time::Instant {
    std::time::Instant::now()
}

/// A reading of the monotonic clock: the whole nanoseconds elapsed since
/// `origin` when the reading was taken. Its fields are private to this
/// module, so every reading is one that `nanos_since` took.
pub struct ClockReading {
    origin: std::time::Instant,
    nanos: u128,
}

impl ClockReading {
    /// The instant the reading counts from.
    pub closed spec fn origin(self) -> std::time::Instant {
        self.origin
    }

    /// Nanoseconds elapsed since `origin` when the reading was taken.
    pub closed spec fn nanos(self) -> u128 {
        self.nanos
    }

    /// Nanoseconds elapsed since the origin when the reading was taken.
    pub fn nanos_value(&self) -> (r: u128)
        ensures
            r == self.nanos(),
    {
        self.nanos
    }
}

/// `Instant::elapsed`, taken in whole nanoseconds, as a reading counted
/// from `start`. Claimed: the reading counts from `start`, and it is no
/// smaller than `prev` when `prev` counts from the same instant. `prev` was
/// taken by an earlier call, and `Instant` documents a monotonically
/// nondecreasing clock, with `elapsed` saturating at zero. The value itself
/// is not stated: it depends on the time of the call.
#[verifier::external_body]
pub(crate) fn nanos_since(start: &std::time::Instant, prev: Option<&ClockReading>) -> (r: ClockReading)
    ensures
        r.origin() == *start,
        match prev {
            Some(p) => p.origin() == *start ==> p.nanos() <= r.nanos(),
            None => true,
        },
{
    let _ = prev;
    ClockReading { origin: *start, nanos: start.elapsed().as_nanos() }
}

/// What `Duration::as_nanos` gives for `d`: its length in whole
/// nanoseconds. It depends on `d` alone.
pub uninterp spec fn duration_as_nanos(d: std::time::Duration) -> u128;

/// `Duration::as_nanos`: the length of `d` in whole nanoseconds.
/// Claimed: the value is `duration_as_nanos(d)`.
#[verifier::external_body]
pub(crate) fn duration_nanos(d: &std::time::Duration) -> (r: u128)
    ensures
        r == duration_as_nanos(*d),
{
    d.as_nanos()
}

} // verus!
