//! The snapshot message: what the daemon sends to its display client on every
//! tick.

use super::cpu::Load;
use vstd::prelude::*;

verus! {

/// The state of the graphics adapter inside a snapshot.
#[derive(Debug, PartialEq, Eq)]
pub struct GPU {
    /// Vendor and model, as people read them.
    pub name: String,
    /// Adapter memory in use, in bytes.
    pub memory_used: u64,
    /// Size of the adapter memory, in bytes.
    pub memory_total: u64,
    /// Load of the adapter, in percent.
    pub gpu_utilization: u32,
}

/// What a sample of the graphics adapter holds, whichever type carries it.
pub struct GpuView {
    pub name: Seq<char>,
    pub memory_used: u64,
    pub memory_total: u64,
    pub gpu_utilization: u32,
}

impl View for GPU {
    type V = GpuView;

    open spec fn view(&self) -> GpuView {
        GpuView {
            name: self.name@,
            memory_used: self.memory_used,
            memory_total: self.memory_total,
            gpu_utilization: self.gpu_utilization,
        }
    }
}

impl Clone for GPU {
    fn clone(&self) -> (copy: Self)
        ensures
            copy@ == self@,
    {
        GPU {
            name: self.name.clone(),
            memory_used: self.memory_used,
            memory_total: self.memory_total,
            gpu_utilization: self.gpu_utilization,
        }
    }
}

impl Default for GPU {
    /// An adapter without a name, with all counters zero.
    fn default() -> (gpu: Self)
        ensures
            gpu@ == (GpuView {
                name: Seq::empty(),
                memory_used: 0,
                memory_total: 0,
                gpu_utilization: 0,
            }),
    {
        GPU { name: String::new(), memory_used: 0, memory_total: 0, gpu_utilization: 0 }
    }
}

/// One snapshot of the host: the load of the processors, the use of the main
/// memory and, once the graphics adapter has been sampled, its state.
#[derive(Debug, PartialEq, Eq)]
pub struct SystemMessage {
    /// Load over all processors.
    pub cpu_usage: Load,
    /// Main memory in use, in bytes.
    pub mem_used: u64,
    /// Size of the main memory, in bytes.
    pub mem_total: u64,
    /// The graphics adapter; `None` until a first sample of it has arrived.
    pub gpu_info: Option<GPU>,
}

/// What a snapshot holds.
pub struct SnapshotView {
    pub cpu_usage: Load,
    pub mem_used: u64,
    pub mem_total: u64,
    pub gpu_info: Option<GpuView>,
}

impl View for SystemMessage {
    type V = SnapshotView;

    open spec fn view(&self) -> SnapshotView {
        SnapshotView {
            cpu_usage: self.cpu_usage,
            mem_used: self.mem_used,
            mem_total: self.mem_total,
            gpu_info: match self.gpu_info {
                Some(gpu) => Some(gpu@),
                None => None,
            },
        }
    }
}

impl Clone for SystemMessage {
    fn clone(&self) -> (copy: Self)
        ensures
            copy@ == self@,
    {
        let gpu_info: Option<GPU> = match &self.gpu_info {
            Some(gpu) => Some(gpu.clone()),
            None => None,
        };
        SystemMessage {
            cpu_usage: self.cpu_usage,
            mem_used: self.mem_used,
            mem_total: self.mem_total,
            gpu_info,
        }
    }
}

impl Default for SystemMessage {
    /// A snapshot of nothing: all counters zero, no graphics adapter.
    fn default() -> (message: Self)
        ensures
            message@ == (SnapshotView {
                cpu_usage: Load { bits: 0 },
                mem_used: 0,
                mem_total: 0,
                gpu_info: None,
            }),
    {
        SystemMessage { cpu_usage: Load { bits: 0 }, mem_used: 0, mem_total: 0, gpu_info: None }
    }
}

} // verus!
