//! When the daemon runs and when it ends.
//!
//! The daemon runs while a display client shows its output. The client says
//! so with a lock marker, a file that it creates before it launches the
//! daemon and removes when it closes. The daemon only ever looks for the
//! marker. Not finding it is the one way the aggregation loop ends. The
//! other way for the process to end comes before the loop starts: a second
//! instance gives up at once.

use vstd::prelude::*;

verus! {

/// Where the daemon looks for the lock marker: the client may live in a
/// temporary directory of its own, so every such directory is searched.
pub const LOCK_PATTERN: &'static str = "/tmp/zellij-*/system-monitor-lock";

/// The name of the token that only one running daemon can hold.
pub const INSTANCE_NAME: &'static str = "zellij-system-monitor";

/// Seconds between two ticks of the aggregation loop. A tick that was missed
/// is skipped, not made up for.
pub const TICK_SECS: u64 = 2;

/// Exit status after the lock marker has gone.
pub const EXIT_MARKER_GONE: i32 = 0;

/// Exit status of an instance that found another one running.
pub const EXIT_ALREADY_RUNNING: i32 = 1;

/// The outcome of one search for the lock marker.
#[derive(Clone, Copy, Debug, PartialEq, Eq, Structural)]
pub enum LockScan {
    /// The search ran and found this many paths.
    Matches { count: usize },
    /// The search could not be made.
    Failed,
}

impl LockScan {
    /// The marker is there: the search ran and found a path.
    pub open spec fn spec_present(self) -> bool {
        self matches LockScan::Matches { count } && count > 0
    }

    /// Whether the marker is there. A search that could not be made counts
    /// as a marker that is gone.
    pub fn present(&self) -> (present: bool)
        ensures
            present == self.spec_present(),
    {
        match self {
            LockScan::Matches { count } => *count > 0,
            LockScan::Failed => false,
        }
    }
}

/// The two states of the daemon. `Terminated` is final.
#[derive(Clone, Copy, Debug, PartialEq, Eq, Structural)]
pub enum Phase {
    Running,
    /// The process is to exit with this status.
    Terminated { code: i32 },
}

} // verus!
