//! The operating system's query interface, as far as the samplers use it.
//!
//! Nothing here is proved: these items tell the verifier which calls exist
//! and what is taken on trust about them. A refresh reads the machine, so
//! nothing is said of what the handle holds afterwards. A getter reads the
//! handle and nothing else, so what it returns has a name over the handle.

use super::cpu::Load;
use sysinfo::System;
use vstd::prelude::*;

verus! {

/// `sysinfo::System`, the handle through which the host is queried. Opaque to
/// the verifier: it is only ever passed on.
#[verifier::external_type_specification]
#[verifier::external_body]
pub struct ExSystem(System);

/// The size of the main memory, in bytes, that the handle holds from its
/// last refresh.
pub uninterp spec fn host_total_memory(sys: System) -> u64;

/// The bytes of main memory available for use that the handle holds from
/// its last refresh.
pub uninterp spec fn host_available_memory(sys: System) -> u64;

/// The load over all processors that the handle holds from its last
/// refreshes, in percent, as the bit pattern of the single-precision number.
pub uninterp spec fn host_cpu_load_bits(sys: System) -> u32;

/// `System::refresh_cpu_all` re-reads the processor counters. Nothing is
/// claimed about the handle afterwards.
pub assume_specification[ System::refresh_cpu_all ](sys: &mut System);

/// `System::refresh_memory` re-reads the memory counters. Nothing is claimed
/// about the handle afterwards.
pub assume_specification[ System::refresh_memory ](sys: &mut System);

/// `System::total_memory` returns the size of the main memory that the
/// handle holds. It reads the handle only, so the claim is that the result
/// depends on the handle alone; any value may be held.
pub assume_specification[ System::total_memory ](sys: &System) -> (bytes: u64)
    ensures
        bytes == host_total_memory(*sys),
;

/// `System::available_memory` returns the available memory that the handle
/// holds. It reads the handle only, so the claim is that the result depends
/// on the handle alone; any value may be held.
pub assume_specification[ System::available_memory ](sys: &System) -> (bytes: u64)
    ensures
        bytes == host_available_memory(*sys),
;

/// `System::global_cpu_usage` returns the load over all processors that the
/// handle holds, as a single-precision number; this hands it on by its bit
/// pattern. It reads the handle only, so the claim is that the result
/// depends on the handle alone; any value may be held.
#[verifier::external_body]
pub(crate) fn global_cpu_load(sys: &System) -> (load: Load)
    ensures
        load.bits == host_cpu_load_bits(*sys),
{
    Load { bits: sys.global_cpu_usage().to_bits() }
}

} // verus!
