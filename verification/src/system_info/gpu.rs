//! The sampler of the graphics adapter.
//!
//! A query of the adapter runs on a thread of its own and may fail; what it
//! found travels to the aggregation loop as a sample. The sampler keeps the
//! values of the last query and converts between the three shapes they take:
//! the reading of the device, the sample on the channel, and the part of the
//! snapshot.

use super::info::{GpuView, GPU};
use vstd::prelude::*;
use vstd::string::*;

verus! {

/// What one successful query of the active adapter reports.
#[derive(Debug, PartialEq, Eq)]
pub struct GpuReading {
    /// The vendor, such as "NVIDIA".
    pub vendor: String,
    /// The model, such as "RTX4090".
    pub model: String,
    /// Adapter memory in use, in bytes.
    pub used_vram: u64,
    /// Size of the adapter memory, in bytes.
    pub total_vram: u64,
    /// Load of the adapter, in percent.
    pub load_pct: u32,
}

/// A sample on its way to the aggregation loop: name, memory in use, size of
/// the memory, load in percent.
pub type GpuSample = (String, u64, u64, u32);

/// What a sample holds.
pub open spec fn sample_view(sample: GpuSample) -> GpuView {
    GpuView {
        name: sample.0@,
        memory_used: sample.1,
        memory_total: sample.2,
        gpu_utilization: sample.3,
    }
}

/// The name of an adapter: vendor, one space, model.
pub open spec fn spec_gpu_name(vendor: Seq<char>, model: Seq<char>) -> Seq<char> {
    vendor + seq![' '] + model
}

/// What a sampler holds after it took in `reading`.
pub open spec fn reading_view(reading: GpuReading) -> GpuView {
    GpuView {
        name: spec_gpu_name(reading.vendor@, reading.model@),
        memory_used: reading.used_vram,
        memory_total: reading.total_vram,
        gpu_utilization: reading.load_pct,
    }
}

/// Composes the name of an adapter from its vendor and its model.
pub fn gpu_name(vendor: &str, model: &str) -> (name: String)
    ensures
        name@ == spec_gpu_name(vendor@, model@),
{
    let mut name = String::from_str(vendor);
    proof {
        reveal_strlit(" ");
    }
    name.append(" ");
    name.append(model);
    assert(" "@ =~= seq![' ']);
    name
}

/// The sampler of the graphics adapter: the values of the last query.
#[derive(Debug, PartialEq, Eq)]
pub struct GpuUsage {
    /// Vendor and model.
    pub name: String,
    /// Load of the adapter, in percent.
    pub gpu_utilization: u32,
    /// Adapter memory in use, in bytes.
    pub memory_used: u64,
    /// Size of the adapter memory, in bytes.
    pub memory_total: u64,
}

impl View for GpuUsage {
    type V = GpuView;

    open spec fn view(&self) -> GpuView {
        GpuView {
            name: self.name@,
            memory_used: self.memory_used,
            memory_total: self.memory_total,
            gpu_utilization: self.gpu_utilization,
        }
    }
}

impl Clone for GpuUsage {
    fn clone(&self) -> (copy: Self)
        ensures
            copy@ == self@,
    {
        GpuUsage {
            name: self.name.clone(),
            gpu_utilization: self.gpu_utilization,
            memory_used: self.memory_used,
            memory_total: self.memory_total,
        }
    }
}

impl Default for GpuUsage {
    /// A sampler that has queried nothing: no name, all counters zero.
    fn default() -> (gpu: Self)
        ensures
            gpu@ == GpuUsage::default_view(),
    {
        GpuUsage { name: String::new(), gpu_utilization: 0, memory_used: 0, memory_total: 0 }
    }
}

impl GpuUsage {
    /// What a sampler holds that has queried nothing.
    pub open spec fn default_view() -> GpuView {
        GpuView { name: Seq::empty(), memory_used: 0, memory_total: 0, gpu_utilization: 0 }
    }

    /// Takes in what a query of the adapter reported.
    pub fn update(&mut self, gpu: &GpuReading)
        ensures
            final(self)@ == reading_view(*gpu),
    {
        self.name = gpu_name(gpu.vendor.as_str(), gpu.model.as_str());
        self.memory_used = gpu.used_vram;
        self.memory_total = gpu.total_vram;
        self.gpu_utilization = gpu.load_pct;
    }

    /// The sampler's values as a sample for the channel.
    pub fn sample(&self) -> (sample: GpuSample)
        ensures
            sample_view(sample) == self@,
    {
        (self.name.clone(), self.memory_used, self.memory_total, self.gpu_utilization)
    }

    /// A sampler that holds what `sample` carries.
    pub fn from_sample(sample: GpuSample) -> (gpu: Self)
        ensures
            gpu@ == sample_view(sample),
    {
        GpuUsage {
            name: sample.0,
            memory_used: sample.1,
            memory_total: sample.2,
            gpu_utilization: sample.3,
        }
    }

    /// The sampler's values as the part of a snapshot.
    pub fn info(&self) -> (gpu: GPU)
        ensures
            gpu@ == self@,
    {
        GPU {
            name: self.name.clone(),
            memory_used: self.memory_used,
            memory_total: self.memory_total,
            gpu_utilization: self.gpu_utilization,
        }
    }
}

} // verus!
