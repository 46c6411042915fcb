//! The daemon's three loops, each as a step function.
//!
//! A loop of the daemon waits, for the timer, for the host, for a channel,
//! and decides in between. The waiting is the program's; the deciding is
//! here. Each loop is a value with a `step` method: the program performs the
//! action that the last step returned and reports what came of it as the next
//! event.

pub mod aggregation;
pub mod laws;
pub mod lifecycle;
pub mod poller;
pub mod sink;

pub use aggregation::{Action, Aggregator, Event};
pub use lifecycle::{LockScan, Phase};
pub use poller::{Poller, PollerAction, PollerEvent};
pub use sink::{SinkAction, SinkEvent};
