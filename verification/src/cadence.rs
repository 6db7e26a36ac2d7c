//! Decimation cadence for the sampler loop.
//!
//! CPU usage is sampled every cycle; memory and process statistics are
//! recomputed only once every `DECIMATION` cycles. The counter starts at 0,
//! fires on 0, and wraps back to 0 after `DECIMATION` cycles.

use vstd::prelude::*;

verus! {

/// Number of sampler cycles between two memory/process refreshes.
pub const DECIMATION: u8 = 5;

/// Cycle counter deciding, each sampler cycle, whether the slow-cadence
/// metrics (memory and processes) are refreshed this cycle.
pub struct Cadence {
    pub counter: u8,
}

impl Cadence {
    /// The counter always stays below `DECIMATION`.
    pub open spec fn wf(self) -> bool {
        self.counter < DECIMATION
    }

    pub open spec fn counter(self) -> u8 {
        self.counter
    }

    /// A fresh cadence fires on its very first cycle.
    pub fn new() -> (c: Cadence)
        ensures
            c.wf(),
            c.counter() == 0,
    {
        Cadence { counter: 0 }
    }

    /// Advances the counter by one cycle and reports whether the
    /// slow-cadence metrics are to be refreshed this cycle.
    pub fn step(&mut self) -> (fire: bool)
        requires
            old(self).wf(),
        ensures
            final(self).wf(),
            fire == (old(self).counter() == 0),
            final(self).counter() == (old(self).counter() + 1) % (DECIMATION as int),
    {
        let fire = self.counter == 0;
        self.counter = if self.counter >= DECIMATION - 1 {
            0
        } else {
            self.counter + 1
        };
        fire
    }
}

/// How many of the next `n` cycles fire, starting from counter value `c`.
pub open spec fn fires_among(c: nat, n: nat) -> nat
    decreases n,
{
    if n == 0 {
        0
    } else {
        (if c == 0 { 1nat } else { 0nat }) + fires_among((c + 1) % (DECIMATION as nat), (n - 1) as nat)
    }
}

/// Decimation law: from any reachable counter value, across `DECIMATION`
/// consecutive sampler cycles the slow-cadence metrics are refreshed
/// exactly once (while CPU, sampled unconditionally, is refreshed every
/// cycle).
pub proof fn lemma_decimation_window(c: nat)
    requires
        c < DECIMATION,
    ensures
        fires_among(c, DECIMATION as nat) == 1,
{
    reveal_with_fuel(fires_among, 6);
    if c == 0 {
        assert(fires_among(0, 5) == 1);
    } else if c == 1 {
        assert(fires_among(1, 5) == 1);
    } else if c == 2 {
        assert(fires_among(2, 5) == 1);
    } else if c == 3 {
        assert(fires_among(3, 5) == 1);
    } else {
        assert(c == 4);
        assert(fires_among(4, 5) == 1);
    }
}

} // verus!
