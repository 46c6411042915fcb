//! The samplers and the snapshot message they feed.

pub mod cpu;
pub mod gpu;
pub mod host;
pub mod info;
pub mod mem;

pub use cpu::{CpuStep, CpuUsage, Load};
pub use gpu::{GpuReading, GpuSample, GpuUsage};
pub use info::{GpuView, SnapshotView, SystemMessage, GPU};
pub use mem::MemUsage;
