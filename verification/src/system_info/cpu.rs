//! The processor sampler.
//!
//! The host computes a load from the difference between two readings of its
//! counters, so a reading that follows a single refresh is meaningless. The
//! sampler therefore refreshes a fixed number of times, with a pause after
//! each refresh, before it reads. The pause is the caller's to make: one call
//! of [`CpuUsage::update`] is one step of the cycle and says what comes next.
//! The sampler counts its refreshes itself, and nobody else can set the
//! count: it never reads the host before it has refreshed.

use super::host::{global_cpu_load, host_cpu_load_bits};
use sysinfo::System;
use vstd::prelude::*;

verus! {

/// Refreshes of the processor counters that precede one reading.
pub const REFRESH_ROUNDS: u32 = 4;

/// Pause after each refresh, in milliseconds.
pub const REFRESH_PAUSE_MILLIS: u64 = 100;

/// A load in percent, as the bit pattern of an IEEE 754 single-precision
/// number. The library never computes with a load, it only carries it from
/// the sampler into the snapshot, and the bit pattern does that exactly.
#[derive(Clone, Copy, Debug, PartialEq, Eq, Structural)]
pub struct Load {
    pub bits: u32,
}

impl Default for Load {
    /// The load zero.
    fn default() -> (load: Self)
        ensures
            load.bits == 0,
    {
        Load { bits: 0 }
    }
}

/// What the caller does after one step of the sampling cycle.
#[derive(Clone, Copy, Debug, PartialEq, Eq, Structural)]
pub enum CpuStep {
    /// The counters were refreshed: wait this long, then step again.
    Pause { millis: u64 },
    /// The load was read and stored: the cycle is over.
    Done,
}

/// The step that a sampler takes after `made` refreshes in its cycle: it
/// refreshes and asks for a pause until [`REFRESH_ROUNDS`] refreshes are
/// made, then it reads.
pub open spec fn step_after(made: u32) -> CpuStep {
    if made < REFRESH_ROUNDS {
        CpuStep::Pause { millis: REFRESH_PAUSE_MILLIS }
    } else {
        CpuStep::Done
    }
}

/// The refreshes counted after that step: one more, or none again once the
/// load was read.
pub open spec fn refreshes_after_step(made: u32) -> u32 {
    if made < REFRESH_ROUNDS {
        (made + 1) as u32
    } else {
        0
    }
}

/// The refreshes counted after `steps` further steps.
pub open spec fn refreshes_after(made: u32, steps: nat) -> u32
    decreases steps,
{
    if steps == 0 {
        made
    } else {
        refreshes_after(refreshes_after_step(made), (steps - 1) as nat)
    }
}

/// The processor sampler: the last load read, and how far the current
/// sampling cycle has come.
#[derive(Clone, Copy, Debug, PartialEq, Eq, Structural)]
pub struct CpuUsage {
    /// The load over all processors at the end of the last full cycle.
    total: Load,
    /// Refreshes made in the current cycle.
    refreshes: u32,
}

impl Default for CpuUsage {
    /// A sampler that has read nothing and stands at the start of a cycle.
    fn default() -> (cpu: Self)
        ensures
            cpu.total().bits == 0,
            cpu.refreshes() == 0,
    {
        CpuUsage { total: Load { bits: 0 }, refreshes: 0 }
    }
}

impl CpuUsage {
    /// A sampler never counts more refreshes than a cycle has.
    #[verifier::type_invariant]
    spec fn within_cycle(self) -> bool {
        self.refreshes <= REFRESH_ROUNDS
    }

    /// The load over all processors at the end of the last full cycle.
    pub closed spec fn spec_total(&self) -> Load {
        self.total
    }

    /// The load over all processors at the end of the last full cycle.
    #[verifier::when_used_as_spec(spec_total)]
    pub fn total(&self) -> (load: Load)
        ensures
            load == self.total(),
    {
        self.total
    }

    /// Refreshes made in the current cycle.
    pub closed spec fn spec_refreshes(&self) -> u32 {
        self.refreshes
    }

    /// Refreshes made in the current cycle.
    #[verifier::when_used_as_spec(spec_refreshes)]
    pub fn refreshes(&self) -> (made: u32)
        ensures
            made == self.refreshes(),
    {
        self.refreshes
    }

    /// Takes one step of the sampling cycle. While fewer than
    /// [`REFRESH_ROUNDS`] refreshes were made, the step refreshes the host's
    /// counters and asks for a pause; the load stays as it was. After
    /// exactly that many, the step leaves the host as it is, stores the load
    /// that it holds, and the cycle starts over.
    pub fn update(&mut self, sys: &mut System) -> (step: CpuStep)
        ensures
            step == step_after(old(self).refreshes()),
            step is Done <==> old(self).refreshes() == REFRESH_ROUNDS,
            final(self).refreshes() == refreshes_after_step(old(self).refreshes()),
            step is Pause ==> final(self).total() == old(self).total(),
            step is Done ==> final(self).total().bits == host_cpu_load_bits(*old(sys)),
            step is Done ==> *final(sys) == *old(sys),
    {
        proof {
            use_type_invariant(&*self);
        }
        if self.refreshes < REFRESH_ROUNDS {
            sys.refresh_cpu_all();
            self.refreshes = self.refreshes + 1;
            CpuStep::Pause { millis: REFRESH_PAUSE_MILLIS }
        } else {
            let load = global_cpu_load(sys);
            self.record(load);
            CpuStep::Done
        }
    }

    /// Stores a load that was read and starts a new cycle.
    pub fn record(&mut self, load: Load)
        ensures
            final(self).total() == load,
            final(self).refreshes() == 0,
    {
        *self = CpuUsage { total: load, refreshes: 0 };
    }
}

/// A cycle that starts fresh pauses exactly [`REFRESH_ROUNDS`] times, each
/// time for [`REFRESH_PAUSE_MILLIS`], then reads, and stands at the start
/// of the next cycle.
pub proof fn law_cycle_refreshes_then_reads()
    ensures
        forall|steps: nat|
            steps < REFRESH_ROUNDS ==> step_after(#[trigger] refreshes_after(0, steps)) == (
            CpuStep::Pause { millis: REFRESH_PAUSE_MILLIS }),
        step_after(refreshes_after(0, REFRESH_ROUNDS as nat)) == CpuStep::Done,
        refreshes_after(0, REFRESH_ROUNDS as nat + 1) == 0,
{
    reveal_with_fuel(refreshes_after, 6);
    assert forall|steps: nat| steps < REFRESH_ROUNDS implies step_after(
        #[trigger] refreshes_after(0, steps),
    ) == (CpuStep::Pause { millis: REFRESH_PAUSE_MILLIS }) by {
        assert(steps == 0 || steps == 1 || steps == 2 || steps == 3);
    }
}

/// Within a cycle the count only says how many refreshes were made: from
/// the start of a cycle, as long as no more than [`REFRESH_ROUNDS`] steps
/// were taken, as many refreshes are counted as steps were taken. So the
/// step that reads is the one that follows [`REFRESH_ROUNDS`] refreshes.
pub proof fn law_reading_follows_the_refreshes(steps: nat)
    requires
        steps <= REFRESH_ROUNDS,
    ensures
        refreshes_after(0, steps) == steps,
        step_after(refreshes_after(0, steps)) is Done <==> steps == REFRESH_ROUNDS,
{
    reveal_with_fuel(refreshes_after, 6);
    assert(steps == 0 || steps == 1 || steps == 2 || steps == 3 || steps == 4);
}

} // verus!
