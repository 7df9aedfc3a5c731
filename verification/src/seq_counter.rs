//! The outbound correlation counter.
//!
//! Every outbound control request carries a sequence number drawn from a
//! counter that starts at 1 and wraps from 65535 back to 1, so that 0 is
//! never issued.  The counter is an explicit value owned by whoever builds
//! outbound frames; callers that share one across tasks wrap it in whatever
//! synchronisation their runtime provides.

use vstd::prelude::*;

verus! {

/// The largest sequence number ever issued.
pub const MAX_SEQ: u32 = 65535;

/// A correlation counter holding the next sequence number to issue.
#[derive(Debug, Clone, Copy, PartialEq, Eq, Structural)]
pub struct SeqCounter {
    value: u32,
}

/// The counter value that follows `v`: one more, wrapping 65535 to 1.
pub open spec fn spec_next_value(v: u32) -> u32 {
    if v == MAX_SEQ {
        1u32
    } else {
        (v + 1) as u32
    }
}

/// The value a counter holds after starting at `start` and issuing `n` numbers.
pub open spec fn spec_value_after(start: u32, n: nat) -> u32
    decreases n,
{
    if n == 0 {
        start
    } else {
        spec_next_value(spec_value_after(start, (n - 1) as nat))
    }
}

impl SeqCounter {
    /// A counter holds a value in [1, 65535].
    pub closed spec fn wf(self) -> bool {
        1 <= self.value <= MAX_SEQ
    }

    /// The number the counter will issue next.
    pub closed spec fn spec_value(self) -> u32 {
        self.value
    }

    /// A fresh counter, about to issue 1.
    pub fn new() -> (r: SeqCounter)
        ensures
            r.wf(),
            r.spec_value() == 1,
    {
        SeqCounter { value: 1 }
    }

    /// Issues the next sequence number: the current value, never 0, and
    /// advances the counter, wrapping 65535 back to 1.
    pub fn next_seq(&mut self) -> (r: u32)
        requires
            old(self).wf(),
        ensures
            final(self).wf(),
            r == old(self).spec_value(),
            1 <= r <= MAX_SEQ,
            final(self).spec_value() == spec_next_value(r),
    {
        let r = self.value;
        self.value = if r == MAX_SEQ {
            1
        } else {
            r + 1
        };
        r
    }
}

/// Starting from 1, the counter cycles with period 65535: the n-th number
/// issued is `n % 65535 + 1`, so the first 65535 draws return 1..=65535 in
/// order, the 65536th returns 1 again, and 0 is never produced.
pub proof fn lemma_seq_cycle(n: nat)
    ensures
        spec_value_after(1, n) == n % 65535 + 1,
    decreases n,
{
    if n > 0 {
        lemma_seq_cycle((n - 1) as nat);
        let m = n as int;
        assert((m - 1) % 65535 + 1 == if m % 65535 == 0 {
            65535int
        } else {
            m % 65535
        }) by (nonlinear_arith)
            requires
                m >= 1,
        ;
    }
}

} // verus!
