//! Instants and spans of time, counted in nanoseconds.

use vstd::prelude::*;

verus! {

/// An instant on the UTC time line: whole seconds since the Unix epoch and a
/// sub-second part in nanoseconds.
///
/// The sub-second part is not required to stay below one second; the instant
/// denoted is always `secs * 10^9 + nanos` nanoseconds after the epoch.
#[derive(Clone, Copy, Debug, PartialEq, Eq, Structural)]
pub struct Timestamp {
    pub secs: i64,
    pub nanos: u32,
}

impl View for Timestamp {
    type V = int;

    /// Nanoseconds since the Unix epoch.
    open spec fn view(&self) -> int {
        self.secs * 1_000_000_000 + self.nanos
    }
}

/// Nanoseconds from `earlier` up to `later`, and zero where `later` does not
/// lie after `earlier`.
pub open spec fn elapsed_nanos(earlier: Timestamp, later: Timestamp) -> nat {
    if later@ > earlier@ {
        (later@ - earlier@) as nat
    } else {
        0
    }
}

impl Timestamp {
    /// The instant `secs` seconds and `nanos` nanoseconds after the epoch.
    pub fn new(secs: i64, nanos: u32) -> (t: Timestamp)
        ensures
            t.secs == secs,
            t.nanos == nanos,
            t@ == secs * 1_000_000_000 + nanos,
    {
        Timestamp { secs, nanos }
    }

    /// Time elapsed since `earlier`, clamped to zero where `earlier` lies in
    /// the future of this instant.
    pub fn saturating_since(&self, earlier: &Timestamp) -> (span: Interval)
        ensures
            span@ == elapsed_nanos(*earlier, *self),
    {
        let secs: i128 = self.secs as i128 - earlier.secs as i128;
        let diff: i128 = secs * 1_000_000_000 + (self.nanos as i128 - earlier.nanos as i128);
        if diff > 0 {
            Interval { nanos: diff as u128 }
        } else {
            Interval { nanos: 0 }
        }
    }
}

/// A span of time: a count of nanoseconds.
#[derive(Clone, Copy, Debug, PartialEq, Eq, Structural)]
pub struct Interval {
    pub nanos: u128,
}

impl View for Interval {
    type V = nat;

    /// The span in nanoseconds.
    open spec fn view(&self) -> nat {
        self.nanos as nat
    }
}

impl Interval {
    /// The span of `nanos` nanoseconds.
    pub fn from_nanos(nanos: u128) -> (span: Interval)
        ensures
            span@ == nanos,
    {
        Interval { nanos }
    }

    /// The span of `millis` milliseconds.
    pub fn from_millis(millis: u64) -> (span: Interval)
        ensures
            span@ == millis * 1_000_000,
    {
        Interval { nanos: (millis as u128) * 1_000_000 }
    }

    /// The span of `secs` seconds.
    pub fn from_secs(secs: u64) -> (span: Interval)
        ensures
            span@ == secs * 1_000_000_000,
    {
        Interval { nanos: (secs as u128) * 1_000_000_000 }
    }

    /// The span in nanoseconds.
    pub fn as_nanos(&self) -> (n: u128)
        ensures
            n == self@,
    {
        self.nanos
    }

    /// The whole seconds in the span; what is left of a second is dropped.
    pub fn as_secs(&self) -> (s: u128)
        ensures
            s == self@ / 1_000_000_000,
    {
        self.nanos / 1_000_000_000
    }

    /// Whether the span is empty.
    pub fn is_zero(&self) -> (z: bool)
        ensures
            z == (self@ == 0),
    {
        self.nanos == 0
    }
}

/// Reads the system clock through `chrono::Utc::now` and hands the instant
/// back as the seconds (`DateTime::timestamp`) and the sub-second nanoseconds
/// (`DateTime::timestamp_subsec_nanos`) that chrono reports for it.
///
/// Nothing is claimed of the instant: it is whatever the clock says. The call
/// panics on a machine whose clock stands before the Unix epoch.
#[verifier::external_body]
pub(crate) fn now() -> Timestamp {
    let t = chrono::Utc::now();
    Timestamp { secs: t.timestamp(), nanos: t.timestamp_subsec_nanos() }
}

} // verus!
