//! The interval between two reconciliation cycles.
use vstd::prelude::*;

verus! {

/// The cadence of a watcher that was given none, in seconds.
pub const DEFAULT_CADENCE_SECS: u64 = 600;

/// The number of nanoseconds in a second.
pub const NANOS_PER_SEC: u32 = 1_000_000_000;

/// A span of time longer than zero, as whole seconds and the nanoseconds
/// beyond them.
///
/// Every value of this type is positive, and its nanoseconds are less than a
/// second: a span that is not cannot be built.
#[derive(Clone, Copy, Debug, PartialEq, Eq, Structural)]
pub struct Cadence {
    secs: u64,
    nanos: u32,
}

impl Cadence {
    #[verifier::type_invariant]
    spec fn positive_and_normal(self) -> bool {
        Self::admits(self.secs, self.nanos)
    }

    /// The spans that can be a cadence: those longer than zero whose
    /// nanoseconds stay under a second.
    pub open spec fn admits(secs: u64, nanos: u32) -> bool {
        nanos < NANOS_PER_SEC && (secs > 0 || nanos > 0)
    }

    /// The whole seconds of the span.
    pub closed spec fn whole_secs(self) -> u64 {
        self.secs
    }

    /// The nanoseconds of the span beyond its whole seconds.
    pub closed spec fn extra_nanos(self) -> u32 {
        self.nanos
    }

    /// The length of the span in nanoseconds.
    pub open spec fn total_nanos(self) -> nat {
        (self.whole_secs() * NANOS_PER_SEC + self.extra_nanos()) as nat
    }

    /// The cadence of `secs` seconds and `nanos` nanoseconds, or `None` where
    /// that span is zero or `nanos` is a second or more.
    pub fn new(secs: u64, nanos: u32) -> (r: Option<Cadence>)
        ensures
            r is Some <==> Self::admits(secs, nanos),
            r matches Some(c) ==> c.whole_secs() == secs && c.extra_nanos() == nanos,
    {
        if nanos < NANOS_PER_SEC && (secs > 0 || nanos > 0) {
            Some(Cadence { secs, nanos })
        } else {
            None
        }
    }

    /// The cadence of `secs` whole seconds, or `None` for zero seconds.
    pub fn from_secs(secs: u64) -> (r: Option<Cadence>)
        ensures
            r is Some <==> secs > 0,
            r matches Some(c) ==> c.whole_secs() == secs && c.extra_nanos() == 0,
    {
        Cadence::new(secs, 0)
    }

    /// The cadence of a watcher that was given none: ten minutes.
    pub fn standard() -> (r: Cadence)
        ensures
            r.whole_secs() == DEFAULT_CADENCE_SECS,
            r.extra_nanos() == 0,
    {
        Cadence { secs: DEFAULT_CADENCE_SECS, nanos: 0 }
    }

    /// The whole seconds of the span.
    pub fn secs(&self) -> (r: u64)
        ensures
            r == self.whole_secs(),
            Self::admits(r, self.extra_nanos()),
    {
        proof {
            use_type_invariant(self);
        }
        self.secs
    }

    /// The nanoseconds of the span beyond its whole seconds, always less than
    /// a second.
    pub fn subsec_nanos(&self) -> (r: u32)
        ensures
            r == self.extra_nanos(),
            Self::admits(self.whole_secs(), r),
    {
        proof {
            use_type_invariant(self);
        }
        self.nanos
    }
}

} // verus!
