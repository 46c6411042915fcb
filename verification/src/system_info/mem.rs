//! The memory sampler.

use super::host::{host_available_memory, host_total_memory};
use sysinfo::System;
use vstd::prelude::*;

verus! {

/// The memory sampler: the two counters of the last reading, in bytes.
#[derive(Clone, Copy, Debug, PartialEq, Eq, Structural)]
pub struct MemUsage {
    /// Size of the main memory.
    pub total: u64,
    /// Memory that is available for use.
    pub idle: u64,
}

impl Default for MemUsage {
    /// A sampler that has read nothing.
    fn default() -> (mem: Self)
        ensures
            mem.total == 0,
            mem.idle == 0,
    {
        MemUsage { total: 0, idle: 0 }
    }
}

impl MemUsage {
    /// Memory in use: the total less what is available. The host gives the
    /// two counters in two reads. Should the available memory of the second
    /// read exceed the total of the first, the difference wraps around, and
    /// the result then exceeds the total.
    pub open spec fn spec_used(self) -> u64 {
        if self.idle <= self.total {
            (self.total - self.idle) as u64
        } else {
            (self.total - self.idle + 0x1_0000_0000_0000_0000) as u64
        }
    }

    /// Refreshes the host's memory counters and reads both: the sampler
    /// then holds what the host holds after the refresh, the size of the
    /// memory as `total` and the available memory as `idle`.
    pub fn update(&mut self, sys: &mut System)
        ensures
            final(self).total == host_total_memory(*final(sys)),
            final(self).idle == host_available_memory(*final(sys)),
    {
        sys.refresh_memory();
        let total: u64 = sys.total_memory();
        let available: u64 = sys.available_memory();
        self.record(total, available);
    }

    /// Stores the two counters of one reading.
    pub fn record(&mut self, total: u64, available: u64)
        ensures
            final(self).total == total,
            final(self).idle == available,
    {
        self.total = total;
        self.idle = available;
    }

    /// Memory in use, see [`MemUsage::spec_used`].
    pub fn used(&self) -> (bytes: u64)
        ensures
            bytes == self.spec_used(),
            self.idle <= self.total ==> bytes == self.total - self.idle,
    {
        self.total.wrapping_sub(self.idle)
    }

    /// While the available memory is within the total, memory in use and
    /// available memory add up to the total.
    pub proof fn law_used_and_available_make_the_total(mem: MemUsage)
        requires
            mem.idle <= mem.total,
        ensures
            mem.spec_used() == mem.total - mem.idle,
            mem.spec_used() + mem.idle == mem.total,
    {
    }

    /// Memory in use stays within the total exactly when the available
    /// memory does.
    pub proof fn law_used_within_total(mem: MemUsage)
        ensures
            mem.spec_used() <= mem.total <==> mem.idle <= mem.total,
    {
    }
}

} // verus!
