//! Spans of time.
use vstd::prelude::*;

verus! {

/// How many nanoseconds make a second.
pub const NANOS_PER_SEC: u32 = 1_000_000_000;

/// A span of time: whole seconds, and nanoseconds below one second.
#[derive(Debug, Clone, Copy, PartialEq, Eq, Structural)]
pub struct Duration {
    pub secs: u64,
    pub nanos: u32,
}

impl Duration {
    /// The nanoseconds stay below one second.
    pub open spec fn wf(self) -> bool {
        self.nanos < NANOS_PER_SEC
    }

    /// The length of the span in nanoseconds.
    pub open spec fn total(self) -> nat {
        (self.secs * NANOS_PER_SEC + self.nanos) as nat
    }

    /// The span of that many nanoseconds.
    pub open spec fn of_nanos(n: nat) -> Duration {
        Duration {
            secs: (n / NANOS_PER_SEC as nat) as u64,
            nanos: (n % NANOS_PER_SEC as nat) as u32,
        }
    }

    /// The span of that many seconds.
    #[verifier::allow_in_spec]
    pub fn from_secs(secs: u64) -> (r: Duration)
        returns
            (Duration { secs, nanos: 0 }),
    {
        Duration { secs, nanos: 0 }
    }

    /// The span of no length.
    #[verifier::allow_in_spec]
    pub fn zero() -> (r: Duration)
        returns
            (Duration { secs: 0, nanos: 0 }),
    {
        Duration { secs: 0, nanos: 0 }
    }

    /// The span divided by a whole number, rounded down to a nanosecond.
    pub fn div(self, by: u32) -> (r: Duration)
        requires
            self.wf(),
            by > 0,
        ensures
            r == Duration::of_nanos(self.total() / by as nat),
            r.wf(),
            r.total() == self.total() / by as nat,
    {
        let by64: u64 = by as u64;
        let secs: u64 = self.secs / by64;
        let carry: u64 = self.secs % by64;
        proof {
            assert(carry * 1_000_000_000 + self.nanos < by * 1_000_000_000) by (nonlinear_arith)
                requires
                    carry < by,
                    self.nanos < 1_000_000_000,
            ;
            assert(by * 1_000_000_000 <= 0xffff_ffff * 1_000_000_000) by (nonlinear_arith)
                requires
                    by <= 0xffff_ffff,
            ;
        }
        let left: u64 = carry * 1_000_000_000 + self.nanos as u64;
        let nanos: u64 = left / by64;
        proof {
            let b = by as int;
            vstd::arithmetic::div_mod::lemma_fundamental_div_mod(self.secs as int, b);
            vstd::arithmetic::div_mod::lemma_fundamental_div_mod(left as int, b);
            assert(nanos < 1_000_000_000) by (nonlinear_arith)
                requires
                    left == b * nanos + left % by64,
                    0 <= left % by64,
                    left < b * 1_000_000_000,
                    b > 0,
            ;
            let q = secs * 1_000_000_000 + nanos;
            let m = (left % by64) as int;
            assert(self.total() == b * q + m) by (nonlinear_arith)
                requires
                    self.total() == self.secs * 1_000_000_000 + self.nanos,
                    self.secs == b * secs + carry,
                    left == carry * 1_000_000_000 + self.nanos,
                    left == b * nanos + m,
                    q == secs * 1_000_000_000 + nanos,
            ;
            vstd::arithmetic::div_mod::lemma_fundamental_div_mod_converse(
                self.total() as int,
                b,
                q as int,
                m,
            );
            vstd::arithmetic::div_mod::lemma_fundamental_div_mod_converse(
                q as int,
                1_000_000_000,
                secs as int,
                nanos as int,
            );
        }
        Duration { secs, nanos: nanos as u32 }
    }
}

} // verus!
