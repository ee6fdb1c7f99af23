use vstd::prelude::*;

verus! {

/// Nanoseconds in one second.
pub const NANOS_PER_SEC: u32 = 1_000_000_000;

/// Nanoseconds in one millisecond.
pub const NANOS_PER_MILLI: u32 = 1_000_000;

/// A span of media time: whole seconds and a sub-second part in nanoseconds.
#[derive(Clone, Copy, Debug, PartialEq, Eq, Structural)]
pub struct MediaTime {
    secs: u64,
    nanos: u32,
}

impl MediaTime {
    #[verifier::type_invariant]
    spec fn nanos_in_range(self) -> bool {
        self.nanos < NANOS_PER_SEC
    }

    /// The whole seconds.
    pub closed spec fn spec_secs(self) -> nat {
        self.secs as nat
    }

    /// The sub-second part, in nanoseconds.
    pub closed spec fn spec_subsec_nanos(self) -> nat {
        self.nanos as nat
    }

    /// The span in nanoseconds.
    pub open spec fn total_nanos(self) -> nat {
        self.spec_secs() * NANOS_PER_SEC as nat + self.spec_subsec_nanos()
    }

    /// The span in whole milliseconds (rounded down).
    pub open spec fn millis(self) -> nat {
        self.total_nanos() / NANOS_PER_MILLI as nat
    }

    /// The empty span.
    pub fn zero() -> (r: MediaTime)
        ensures
            r.total_nanos() == 0,
    {
        MediaTime { secs: 0, nanos: 0 }
    }

    /// A span of `secs` seconds and `nanos` nanoseconds; nanoseconds beyond
    /// one second carry into the seconds.
    pub fn new(secs: u64, nanos: u32) -> (r: MediaTime)
        requires
            secs + nanos / NANOS_PER_SEC <= u64::MAX,
        ensures
            r.total_nanos() == secs * NANOS_PER_SEC + nanos,
    {
        let carry = nanos / NANOS_PER_SEC;
        MediaTime { secs: secs + carry as u64, nanos: nanos % NANOS_PER_SEC }
    }

    /// A span of `ms` milliseconds.
    pub fn from_millis(ms: u64) -> (r: MediaTime)
        ensures
            r.total_nanos() == ms * NANOS_PER_MILLI,
            r.millis() == ms,
    {
        let secs = ms / 1000;
        let rem = ms % 1000;
        let nanos = (rem as u32) * NANOS_PER_MILLI;
        let r = MediaTime { secs, nanos };
        assert(r.total_nanos() == ms * NANOS_PER_MILLI) by (nonlinear_arith)
            requires
                secs == ms / 1000,
                rem == ms % 1000,
                nanos == rem * NANOS_PER_MILLI,
                r.total_nanos() == secs * NANOS_PER_SEC + nanos,
        ;
        r
    }

    /// The whole seconds.
    pub fn secs(&self) -> (r: u64)
        ensures
            r == self.spec_secs(),
    {
        self.secs
    }

    /// The sub-second part, in nanoseconds.
    pub fn subsec_nanos(&self) -> (r: u32)
        ensures
            r == self.spec_subsec_nanos(),
            r < NANOS_PER_SEC,
    {
        proof {
            use_type_invariant(self);
        }
        self.nanos
    }

    /// Whether the span is empty.
    pub fn is_zero(&self) -> (r: bool)
        ensures
            r == (self.total_nanos() == 0),
    {
        self.secs == 0 && self.nanos == 0
    }

    /// The span in whole milliseconds, saturated at `u64::MAX`.
    pub fn as_millis(&self) -> (r: u64)
        ensures
            self.millis() <= u64::MAX ==> r == self.millis(),
            self.millis() > u64::MAX ==> r == u64::MAX,
    {
        proof {
            use_type_invariant(self);
        }
        let ms: u128 = self.secs as u128 * 1000 + (self.nanos / NANOS_PER_MILLI) as u128;
        assert(ms == self.millis()) by (nonlinear_arith)
            requires
                ms == self.secs * 1000 + self.nanos / NANOS_PER_MILLI,
                self.total_nanos() == self.secs * NANOS_PER_SEC + self.nanos,
                self.millis() == self.total_nanos() / NANOS_PER_MILLI as nat,
        ;
        if ms > u64::MAX as u128 {
            u64::MAX
        } else {
            ms as u64
        }
    }
}

} // verus!
