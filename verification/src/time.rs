//! Lengths of time and points in time, to the nanosecond.
use vstd::prelude::*;

verus! {

/// Nanoseconds in a second.
pub const NANOS_PER_SEC: u32 = 1_000_000_000;

/// A length of time.
#[derive(Clone, Copy, Debug)]
pub struct Span {
    secs: u64,
    nanos: u32,
}

impl View for Span {
    type V = nat;

    /// The length in nanoseconds.
    closed spec fn view(&self) -> nat {
        self.secs as nat * NANOS_PER_SEC as nat + self.nanos as nat
    }
}

impl Span {
    /// The nanoseconds do not reach a whole second.
    #[verifier::type_invariant]
    spec fn normalised(self) -> bool {
        self.nanos < NANOS_PER_SEC
    }

    /// `secs` seconds and `nanos` nanoseconds, where whole seconds among the
    /// nanoseconds carry over.
    pub fn new(secs: u64, nanos: u32) -> (r: Span)
        requires
            secs + nanos / NANOS_PER_SEC <= u64::MAX,
        ensures
            r@ == secs * NANOS_PER_SEC + nanos,
            r@ == secs * 1_000_000_000 + nanos,
    {
        Span { secs: secs + (nanos / NANOS_PER_SEC) as u64, nanos: nanos % NANOS_PER_SEC }
    }

    /// `millis` milliseconds.
    pub fn from_millis(millis: u64) -> (r: Span)
        ensures
            r@ == millis * 1_000_000,
    {
        Span { secs: millis / 1_000, nanos: (millis % 1_000) as u32 * 1_000_000 }
    }

    /// Whole seconds.
    pub fn as_secs(self) -> (r: u64)
        ensures
            r == self@ / (NANOS_PER_SEC as nat),
            r * 1_000_000_000 <= self@ < (r + 1) * 1_000_000_000,
    {
        proof {
            use_type_invariant(&self);
        }
        self.secs
    }

    /// Nanoseconds past the last whole second.
    pub fn subsec_nanos(self) -> (r: u32)
        ensures
            r == self@ % (NANOS_PER_SEC as nat),
            r < 1_000_000_000,
            (self@ - r) % 1_000_000_000 == 0,
    {
        proof {
            use_type_invariant(&self);
        }
        self.nanos
    }
}

/// A point in time, told by how long after the origin of the clock it lies.
#[derive(Clone, Copy, Debug)]
pub struct Moment {
    pub since_origin: Span,
}

impl View for Moment {
    type V = nat;

    /// Nanoseconds after the origin of the clock.
    open spec fn view(&self) -> nat {
        self.since_origin@
    }
}

impl Moment {
    /// How long after `earlier` this lies, zero where it lies before it.
    pub fn saturating_span_since(self, earlier: Moment) -> (r: Span)
        ensures
            r@ == if self@ >= earlier@ {
                self@ - earlier@
            } else {
                0
            },
            self.since_origin@ >= earlier.since_origin@ ==> r@ + earlier.since_origin@
                == self.since_origin@,
            self.since_origin@ <= earlier.since_origin@ ==> r@ == 0,
    {
        let late: Span = self.since_origin;
        let early: Span = earlier.since_origin;
        proof {
            use_type_invariant(&late);
            use_type_invariant(&early);
        }
        if late.secs < early.secs || late.secs == early.secs && late.nanos < early.nanos {
            Span { secs: 0, nanos: 0 }
        } else if late.nanos >= early.nanos {
            Span { secs: late.secs - early.secs, nanos: late.nanos - early.nanos }
        } else {
            Span {
                secs: late.secs - early.secs - 1,
                nanos: NANOS_PER_SEC - early.nanos + late.nanos,
            }
        }
    }
}

/// A moment is told by how long after the origin it lies, to the nanosecond.
pub proof fn law_moments_are_told_by_their_span(a: Moment, b: Moment)
    ensures
        a@ - b@ == a.since_origin@ - b.since_origin@,
        a.since_origin@ == 0 ==> a@ == 0,
{
}

} // verus!
