//! Points in time: what the caller's clock reads, and when a credential expires.

use vstd::prelude::*;

verus! {

/// A reading of the clock: whole seconds since the start of 1970 in UTC, and the
/// nanoseconds into that second. Readings are ordered by the seconds, then by
/// the nanoseconds.
#[derive(Debug, Clone, Copy, PartialEq, Eq, Structural)]
pub struct Timestamp {
    pub secs: i64,
    pub nanos: u32,
}

/// The point in time at which a credential expires, counted as a [`Timestamp`]
/// is. Its seconds are wide enough for any lifetime after any reading of the
/// clock.
#[derive(Debug, Clone, Copy, PartialEq, Eq, Structural)]
pub struct Expiry {
    pub secs: i128,
    pub nanos: u32,
}

impl Timestamp {
    /// Whether this reading lies before `other`.
    pub open spec fn precedes(self, other: Timestamp) -> bool {
        self.secs < other.secs || (self.secs == other.secs && self.nanos < other.nanos)
    }

    /// The expiry `lifetime` seconds after this reading.
    pub open spec fn expiry_after(self, lifetime: u64) -> Expiry {
        Expiry { secs: (self.secs + lifetime) as i128, nanos: self.nanos }
    }

    /// The reading `nanos` nanoseconds into the second `secs`.
    pub fn new(secs: i64, nanos: u32) -> (r: Timestamp)
        ensures
            r == (Timestamp { secs, nanos }),
    {
        Timestamp { secs, nanos }
    }

    /// Whether this reading lies before `other`.
    pub fn is_before(&self, other: &Timestamp) -> (r: bool)
        ensures
            r == self.precedes(*other),
    {
        self.secs < other.secs || (self.secs == other.secs && self.nanos < other.nanos)
    }

    /// The expiry `lifetime` seconds after this reading.
    pub fn expires_after(&self, lifetime: u64) -> (r: Expiry)
        ensures
            r == self.expiry_after(lifetime),
            r.secs == self.secs + lifetime,
            r.nanos == self.nanos,
    {
        Expiry { secs: self.secs as i128 + lifetime as i128, nanos: self.nanos }
    }
}

impl Expiry {
    /// Whether the expiry is still ahead at `now`: whether `now` lies before it.
    pub open spec fn ahead_of(self, now: Timestamp) -> bool {
        now.secs < self.secs || (now.secs == self.secs && now.nanos < self.nanos)
    }

    /// The expiry at what the clock reads as `at`.
    pub open spec fn at_reading(at: Timestamp) -> Expiry {
        Expiry { secs: at.secs as i128, nanos: at.nanos }
    }

    /// The expiry `nanos` nanoseconds into the second `secs`.
    pub fn new(secs: i128, nanos: u32) -> (r: Expiry)
        ensures
            r == (Expiry { secs, nanos }),
    {
        Expiry { secs, nanos }
    }

    /// The expiry at what the clock reads as `at`.
    pub fn at(at: Timestamp) -> (r: Expiry)
        ensures
            r == Expiry::at_reading(at),
    {
        Expiry { secs: at.secs as i128, nanos: at.nanos }
    }

    /// Whether the expiry is still ahead at `now`.
    pub fn is_ahead_of(&self, now: &Timestamp) -> (r: bool)
        ensures
            r == self.ahead_of(*now),
    {
        (now.secs as i128) < self.secs || (now.secs as i128 == self.secs && now.nanos < self.nanos)
    }
}

/// The order of readings is strict and total: of two readings either one lies
/// before the other or they are the same, and never both.
pub proof fn lemma_precedes_is_a_strict_total_order(a: Timestamp, b: Timestamp, c: Timestamp)
    ensures
        !a.precedes(a),
        a.precedes(b) ==> !b.precedes(a),
        a.precedes(b) && b.precedes(c) ==> a.precedes(c),
        a.precedes(b) || b.precedes(a) || a == b,
{
}

/// An expiry is ahead of a reading exactly where the reading lies before the
/// reading at which it stands; and once it is no longer ahead, it is not ahead
/// at any later reading.
pub proof fn lemma_expiry_is_passed_for_good(
    expiry: Expiry,
    at: Timestamp,
    now: Timestamp,
    later: Timestamp,
)
    ensures
        Expiry::at_reading(at).ahead_of(now) <==> now.precedes(at),
        !expiry.ahead_of(now) && !later.precedes(now) ==> !expiry.ahead_of(later),
{
}

/// An expiry with no lifetime is not ahead of the reading it was counted from;
/// one with a lifetime of a second or more is, and stays ahead until the
/// lifetime has passed.
pub proof fn lemma_expiry_after_a_lifetime(captured: Timestamp, lifetime: u64, now: Timestamp)
    ensures
        !captured.expiry_after(0).ahead_of(captured),
        lifetime > 0 ==> captured.expiry_after(lifetime).ahead_of(captured),
        captured.expiry_after(lifetime).ahead_of(now) <==> (now.secs < captured.secs + lifetime
            || (now.secs == captured.secs + lifetime && now.nanos < captured.nanos)),
{
}

} // verus!
