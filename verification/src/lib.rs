//! Sampling and distribution core of a host telemetry daemon.
//!
//! The daemon samples processor, memory and graphics-adapter load on fixed
//! cadences and streams snapshots to a display client. Everything that decides
//! something lives here and is verified: the samplers' bookkeeping, the
//! aggregation loop as a step function from events to actions, the poller of
//! the graphics adapter, and the command line that delivers a snapshot. The
//! program around this library only performs the actions and reports back what
//! happened.

pub mod system_info;
pub mod daemon;
