//! Points in time and spans of time, to the nanosecond.

use vstd::prelude::*;

verus! {

/// Nanoseconds in one second.
pub const NANOS_PER_SEC: u32 = 1_000_000_000;

/// A span of time: whole seconds and a fraction below one second.
///
/// Its view is the span in nanoseconds.
#[derive(Clone, Copy, Debug, PartialEq, Eq, Structural)]
pub struct Duration {
    secs: u64,
    nanos: u32,
}

/// A point in time as signed seconds from the Unix epoch, plus a fraction.
///
/// Its view is the distance from the Unix epoch in nanoseconds, negative before it.
#[derive(Clone, Copy, Debug, PartialEq, Eq, Structural)]
pub struct SystemTime {
    secs: i64,
    nanos: u32,
}

/// The longest span that a [`Duration`] holds, in nanoseconds.
pub open spec fn duration_max() -> int {
    u64::MAX * NANOS_PER_SEC + (NANOS_PER_SEC - 1)
}

/// Whether a [`SystemTime`] can hold the point `nanos` nanoseconds from the Unix epoch.
pub open spec fn representable(nanos: int) -> bool {
    i64::MIN * NANOS_PER_SEC <= nanos <= i64::MAX * NANOS_PER_SEC + (NANOS_PER_SEC - 1)
}

impl View for Duration {
    type V = int;

    closed spec fn view(&self) -> int {
        self.secs * NANOS_PER_SEC + self.nanos
    }
}

impl View for SystemTime {
    type V = int;

    closed spec fn view(&self) -> int {
        self.secs * NANOS_PER_SEC + self.nanos
    }
}

impl Duration {
    #[verifier::type_invariant]
    spec fn well_formed(self) -> bool {
        self.nanos < NANOS_PER_SEC
    }

    /// The empty span.
    pub fn zero() -> (r: Duration)
        ensures
            r@ == 0,
    {
        Duration { secs: 0, nanos: 0 }
    }

    /// A span of `secs` seconds.
    pub fn from_secs(secs: u64) -> (r: Duration)
        ensures
            r@ == secs * NANOS_PER_SEC,
    {
        Duration { secs, nanos: 0 }
    }

    /// A span of `millis` milliseconds.
    pub fn from_millis(millis: u64) -> (r: Duration)
        ensures
            r@ == millis * 1_000_000,
    {
        Duration { secs: millis / 1_000, nanos: ((millis % 1_000) as u32) * 1_000_000 }
    }

    /// A span of `micros` microseconds.
    pub fn from_micros(micros: u64) -> (r: Duration)
        ensures
            r@ == micros * 1_000,
    {
        Duration { secs: micros / 1_000_000, nanos: ((micros % 1_000_000) as u32) * 1_000 }
    }

    /// A span of `nanos` nanoseconds.
    pub fn from_nanos(nanos: u64) -> (r: Duration)
        ensures
            r@ == nanos,
    {
        Duration { secs: nanos / 1_000_000_000, nanos: (nanos % 1_000_000_000) as u32 }
    }

    /// The whole seconds of the span.
    pub fn as_secs(&self) -> (r: u64)
        ensures
            r == self@ / NANOS_PER_SEC as int,
    {
        proof {
            use_type_invariant(self);
        }
        self.secs
    }

    /// The nanoseconds of the span beyond its whole seconds.
    pub fn subsec_nanos(&self) -> (r: u32)
        ensures
            r == self@ % NANOS_PER_SEC as int,
            r < NANOS_PER_SEC,
    {
        proof {
            use_type_invariant(self);
        }
        self.nanos
    }

    /// The sum of the two spans, or the longest span where the sum is longer than that.
    pub fn saturating_add(self, other: Duration) -> (r: Duration)
        ensures
            r@ == (if self@ + other@ <= duration_max() {
                self@ + other@
            } else {
                duration_max()
            }),
    {
        proof {
            use_type_invariant(self);
            use_type_invariant(other);
        }
        let fraction: u32 = self.nanos + other.nanos;
        let carry: u64 = if fraction >= NANOS_PER_SEC { 1 } else { 0 };
        let nanos: u32 = if fraction >= NANOS_PER_SEC { fraction - NANOS_PER_SEC } else { fraction };
        match self.secs.checked_add(other.secs) {
            Some(sum) => match sum.checked_add(carry) {
                Some(secs) => Duration { secs, nanos },
                None => Duration { secs: u64::MAX, nanos: NANOS_PER_SEC - 1 },
            },
            None => Duration { secs: u64::MAX, nanos: NANOS_PER_SEC - 1 },
        }
    }

    /// What is left of the span after `other`, or the empty span where `other` is longer.
    pub fn saturating_sub(self, other: Duration) -> (r: Duration)
        ensures
            r@ == (if self@ >= other@ {
                self@ - other@
            } else {
                0
            }),
    {
        proof {
            use_type_invariant(self);
            use_type_invariant(other);
        }
        if self.secs < other.secs || (self.secs == other.secs && self.nanos < other.nanos) {
            Duration { secs: 0, nanos: 0 }
        } else if self.nanos >= other.nanos {
            Duration { secs: self.secs - other.secs, nanos: self.nanos - other.nanos }
        } else {
            Duration {
                secs: self.secs - other.secs - 1,
                nanos: self.nanos + (NANOS_PER_SEC - other.nanos),
            }
        }
    }
}

impl SystemTime {
    #[verifier::type_invariant]
    spec fn well_formed(self) -> bool {
        self.nanos < NANOS_PER_SEC
    }

    /// The Unix epoch.
    pub fn unix_epoch() -> (r: SystemTime)
        ensures
            r@ == 0,
    {
        SystemTime { secs: 0, nanos: 0 }
    }

    /// The point `span` after this one, where it can be represented.
    pub fn checked_add(self, span: Duration) -> (r: Option<SystemTime>)
        ensures
            r is Some <==> representable(self@ + span@),
            r matches Some(t) ==> t@ == self@ + span@,
    {
        proof {
            use_type_invariant(self);
            use_type_invariant(span);
        }
        let fraction: u32 = self.nanos + span.nanos;
        match self.secs.checked_add_unsigned(span.secs) {
            Some(secs) => if fraction < NANOS_PER_SEC {
                Some(SystemTime { secs, nanos: fraction })
            } else if secs < i64::MAX {
                Some(SystemTime { secs: secs + 1, nanos: fraction - NANOS_PER_SEC })
            } else {
                None
            },
            None => None,
        }
    }

    /// The point `span` before this one, where it can be represented.
    pub fn checked_sub(self, span: Duration) -> (r: Option<SystemTime>)
        ensures
            r is Some <==> representable(self@ - span@),
            r matches Some(t) ==> t@ == self@ - span@,
    {
        proof {
            use_type_invariant(self);
            use_type_invariant(span);
        }
        match self.secs.checked_sub_unsigned(span.secs) {
            Some(secs) => if self.nanos >= span.nanos {
                Some(SystemTime { secs, nanos: self.nanos - span.nanos })
            } else if secs > i64::MIN {
                Some(SystemTime { secs: secs - 1, nanos: self.nanos + (NANOS_PER_SEC - span.nanos) })
            } else {
                None
            },
            None => None,
        }
    }

    /// The span from the Unix epoch to this point, where the point is not before the epoch.
    pub fn since_unix_epoch(&self) -> (r: Option<Duration>)
        ensures
            match r {
                Some(d) => self@ >= 0 && d@ == self@,
                None => self@ < 0,
            },
    {
        proof {
            use_type_invariant(self);
        }
        if self.secs >= 0 {
            Some(Duration { secs: self.secs as u64, nanos: self.nanos })
        } else {
            None
        }
    }
}

/// The longest span has 64 bits of seconds and 999999999 nanoseconds, and a point in time as many,
/// counted from the Unix epoch either way.
pub proof fn law_clocks_have_64_bits_of_seconds(secs: i64, nanos: u32)
    requires
        nanos < 1_000_000_000,
    ensures
        duration_max() == 0xffff_ffff_ffff_ffff * 1_000_000_000 + 999_999_999,
        representable(secs * 1_000_000_000 + nanos),
        !representable(-0x8000_0000_0000_0000 * 1_000_000_000 - 1),
        !representable(0x8000_0000_0000_0000int * 1_000_000_000),
        forall|lower: int, between: int, higher: int|
            #![trigger representable(lower), representable(between), representable(higher)]
            lower <= between <= higher && representable(lower) && representable(higher)
                ==> representable(between),
{
}

} // verus!
