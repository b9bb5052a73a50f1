//! Wall-clock instants and lengths of time, as whole seconds and nanoseconds.

use vstd::prelude::*;

verus! {

/// Nanoseconds in one second.
pub const NANOS_PER_SEC: u32 = 1_000_000_000;

/// A wall-clock instant: seconds and nanoseconds since the Unix epoch.
#[derive(Debug, Clone, Copy, PartialEq, Eq, Structural)]
pub struct Timestamp {
    pub secs: u64,
    pub nanos: u32,
}

/// A length of time: seconds and nanoseconds.
#[derive(Debug, Clone, Copy, PartialEq, Eq, Structural)]
pub struct Span {
    pub secs: u64,
    pub nanos: u32,
}

/// The latest instant that a `Timestamp` holds.
pub open spec fn latest() -> Timestamp {
    Timestamp { secs: u64::MAX, nanos: (NANOS_PER_SEC - 1) as u32 }
}

impl Timestamp {
    /// Nanoseconds since the epoch.
    pub open spec fn total_nanos(self) -> int {
        self.secs * NANOS_PER_SEC + self.nanos
    }

    /// The nanosecond part is below one second.
    pub open spec fn wf(self) -> bool {
        self.nanos < NANOS_PER_SEC
    }

    /// `self` comes strictly before `other`.
    pub open spec fn precedes(self, other: Timestamp) -> bool {
        self.secs < other.secs || (self.secs == other.secs && self.nanos < other.nanos)
    }

    /// The instant `d` after `self`, or the latest instant where that lies
    /// beyond it.
    pub open spec fn plus(self, d: Span) -> Timestamp {
        let total = self.total_nanos() + d.total_nanos();
        if total <= latest().total_nanos() {
            Timestamp {
                secs: (total / NANOS_PER_SEC as int) as u64,
                nanos: (total % NANOS_PER_SEC as int) as u32,
            }
        } else {
            latest()
        }
    }

    /// Whether `self` comes strictly before `other`.
    pub fn is_before(&self, other: &Timestamp) -> (r: bool)
        ensures
            r == self.precedes(*other),
    {
        self.secs < other.secs || (self.secs == other.secs && self.nanos < other.nanos)
    }

    /// The instant `d` after `self`, saturating at the latest instant.
    pub fn saturating_add(&self, d: &Span) -> (r: Timestamp)
        ensures
            r == self.plus(*d),
            r.wf(),
    {
        let nanos: u64 = self.nanos as u64 + d.nanos as u64;
        let carry: u64 = nanos / (NANOS_PER_SEC as u64);
        let rest: u64 = nanos % (NANOS_PER_SEC as u64);
        let ghost total = self.total_nanos() + d.total_nanos();
        assert(total == (self.secs + d.secs + carry) * NANOS_PER_SEC + rest);
        if self.secs <= u64::MAX - d.secs && self.secs + d.secs <= u64::MAX - carry {
            let r = Timestamp { secs: self.secs + d.secs + carry, nanos: rest as u32 };
            assert(total / NANOS_PER_SEC as int == r.secs) by {
                lemma_split(total, r.secs as int, rest as int);
            }
            assert(total % NANOS_PER_SEC as int == rest) by {
                lemma_split(total, r.secs as int, rest as int);
            }
            r
        } else {
            Timestamp { secs: u64::MAX, nanos: NANOS_PER_SEC - 1 }
        }
    }
}

impl Span {
    /// Nanoseconds in the span.
    pub open spec fn total_nanos(self) -> int {
        self.secs * NANOS_PER_SEC + self.nanos
    }
}

proof fn lemma_split(total: int, q: int, r: int)
    requires
        0 <= r < NANOS_PER_SEC,
        total == q * NANOS_PER_SEC + r,
    ensures
        total / NANOS_PER_SEC as int == q,
        total % NANOS_PER_SEC as int == r,
{
    vstd::arithmetic::div_mod::lemma_fundamental_div_mod_converse(
        total,
        NANOS_PER_SEC as int,
        q,
        r,
    );
}

} // verus!
