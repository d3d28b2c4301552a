use vstd::prelude::*;

use crate::timespan::{sat64, sat_sub_i64, TimeSpan};

verus! {

/// An instant of the monotonic clock, counted in nanoseconds from the
/// clock's arbitrary origin. Subtracting two instants yields a span;
/// subtracting a span from an instant yields an earlier instant.
#[derive(Clone, Copy, Debug, PartialEq, Eq, Structural)]
pub struct TimeStamp {
    nanos: i64,
}

impl View for TimeStamp {
    type V = int;

    closed spec fn view(&self) -> int {
        self.nanos as int
    }
}

impl TimeStamp {
    /// Builds an instant from a count of nanoseconds.
    pub fn from_nanos(nanos: i64) -> (r: TimeStamp)
        ensures
            r@ == nanos as int,
    {
        TimeStamp { nanos }
    }

    /// The count of nanoseconds from the clock's origin.
    pub fn nanos(&self) -> (r: i64)
        ensures
            r as int == self@,
    {
        self.nanos
    }

    /// The difference between two instants, saturating.
    pub fn minus_stamp(self, other: TimeStamp) -> (r: TimeSpan)
        ensures
            r@ == sat64(self@ - other@),
    {
        TimeSpan::from_nanos(sat_sub_i64(self.nanos, other.nanos))
    }

    /// The instant a span earlier than this one, saturating.
    pub fn minus_span(self, span: TimeSpan) -> (r: TimeStamp)
        ensures
            r@ == sat64(self@ - span@),
    {
        TimeStamp { nanos: sat_sub_i64(self.nanos, span.total_nanos()) }
    }
}

/// The mathematical value of an `AtomicDateTime`.
pub ghost struct DateVal {
    /// Nanoseconds since the Unix epoch.
    pub nanos: int,
    /// Whether the wall clock was confirmed against an authoritative
    /// source when the instant was captured.
    pub synced: bool,
}

/// A wall-clock (UTC) instant, counted in nanoseconds since the Unix
/// epoch, together with a flag that records whether the clock was
/// confirmed against an authoritative source at capture.
#[derive(Clone, Copy, Debug, PartialEq, Eq, Structural)]
pub struct AtomicDateTime {
    nanos: i64,
    synced: bool,
}

impl View for AtomicDateTime {
    type V = DateVal;

    closed spec fn view(&self) -> DateVal {
        DateVal { nanos: self.nanos as int, synced: self.synced }
    }
}

impl AtomicDateTime {
    /// Builds an instant from a count of nanoseconds since the Unix epoch.
    pub fn new(nanos: i64, synced: bool) -> (r: AtomicDateTime)
        ensures
            r@ == (DateVal { nanos: nanos as int, synced }),
    {
        AtomicDateTime { nanos, synced }
    }

    /// The count of nanoseconds since the Unix epoch.
    pub fn unix_nanos(&self) -> (r: i64)
        ensures
            r as int == self@.nanos,
    {
        self.nanos
    }

    /// Whether the instant was captured from a confirmed wall clock.
    pub fn synced(&self) -> (r: bool)
        ensures
            r == self@.synced,
    {
        self.synced
    }

    /// The difference between two instants, saturating.
    pub fn minus_date(self, other: AtomicDateTime) -> (r: TimeSpan)
        ensures
            r@ == sat64(self@.nanos - other@.nanos),
    {
        TimeSpan::from_nanos(sat_sub_i64(self.nanos, other.nanos))
    }

    /// The instant a span earlier than this one, saturating; the synced
    /// flag is kept.
    pub fn minus_span(self, span: TimeSpan) -> (r: AtomicDateTime)
        ensures
            r@ == (DateVal { nanos: sat64(self@.nanos - span@), synced: self@.synced }),
    {
        AtomicDateTime { nanos: sat_sub_i64(self.nanos, span.total_nanos()), synced: self.synced }
    }

}

} // verus!
