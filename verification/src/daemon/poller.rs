//! The poller of the graphics adapter.
//!
//! A query of the adapter can be slow and can fail, so it runs on a thread of
//! its own, at its own pace, and must never hold up a tick. The poller
//! queries, sends what it found towards the aggregation loop, sleeps, and
//! queries again. It stops when a sample can no longer be sent: then the
//! aggregation loop is gone.

use crate::system_info::gpu::{reading_view, sample_view, GpuReading, GpuSample, GpuUsage};
use crate::system_info::info::GpuView;
use vstd::prelude::*;

verus! {

/// Seconds that the poller sleeps after every attempt.
pub const POLL_PAUSE_SECS: u64 = 2;

/// What the poller remembers between two events.
pub struct PollerView {
    pub stopped: bool,
    /// The values of the last successful query.
    pub usage: GpuView,
}

/// What the thread reports to the poller.
pub enum PollerEventView {
    Queried { reading: Option<GpuView> },
    Sent { delivered: bool },
    Woke,
}

/// What the poller asks the thread to do.
pub enum PollerActionView {
    Query,
    Send { sample: GpuView },
    Sleep { secs: u64 },
    Stop,
}

/// The state in which the poller starts.
pub open spec fn spec_poller_start() -> PollerView {
    PollerView { stopped: false, usage: GpuUsage::default_view() }
}

/// One step of the poller.
///
/// A poller that has stopped answers every event with `Stop`. Otherwise it
/// answers
/// - a query that found the adapter with the sample to send, and a query
///   that failed with the sleep: a failed query is no error, there is just
///   no sample this time;
/// - a sample that was sent with the sleep, and one that could not be sent
///   with `Stop`;
/// - the end of a sleep with the next query.
pub open spec fn spec_poll(state: PollerView, event: PollerEventView) -> (
    PollerView,
    PollerActionView,
) {
    if state.stopped {
        (state, PollerActionView::Stop)
    } else {
        match event {
            PollerEventView::Queried { reading } => match reading {
                Some(found) => (
                    PollerView { stopped: false, usage: found },
                    PollerActionView::Send { sample: found },
                ),
                None => (state, PollerActionView::Sleep { secs: POLL_PAUSE_SECS }),
            },
            PollerEventView::Sent { delivered } => if delivered {
                (state, PollerActionView::Sleep { secs: POLL_PAUSE_SECS })
            } else {
                (PollerView { stopped: true, usage: state.usage }, PollerActionView::Stop)
            },
            PollerEventView::Woke => (state, PollerActionView::Query),
        }
    }
}

/// What the thread reports to the poller.
#[derive(Debug, PartialEq, Eq)]
pub enum PollerEvent {
    /// The active adapter was queried; `None` if there is none or the query
    /// failed.
    Queried { reading: Option<GpuReading> },
    /// A sample was handed to the channel, or the channel is closed.
    Sent { delivered: bool },
    /// The sleep is over.
    Woke,
}

/// What the poller asks the thread to do.
#[derive(Debug, PartialEq, Eq)]
pub enum PollerAction {
    /// Query the active adapter, report `Queried`.
    Query,
    /// Send the sample without waiting for room, report `Sent`.
    Send { sample: GpuSample },
    /// Sleep this long, report `Woke`.
    Sleep { secs: u64 },
    /// End the thread.
    Stop,
}

impl View for PollerEvent {
    type V = PollerEventView;

    open spec fn view(&self) -> PollerEventView {
        match *self {
            PollerEvent::Queried { reading } => PollerEventView::Queried {
                reading: match reading {
                    Some(found) => Some(reading_view(found)),
                    None => None,
                },
            },
            PollerEvent::Sent { delivered } => PollerEventView::Sent { delivered },
            PollerEvent::Woke => PollerEventView::Woke,
        }
    }
}

impl View for PollerAction {
    type V = PollerActionView;

    open spec fn view(&self) -> PollerActionView {
        match *self {
            PollerAction::Query => PollerActionView::Query,
            PollerAction::Send { sample } => PollerActionView::Send { sample: sample_view(sample) },
            PollerAction::Sleep { secs } => PollerActionView::Sleep { secs },
            PollerAction::Stop => PollerActionView::Stop,
        }
    }
}

/// The poller between two events. It has a sampler of its own, apart from
/// what the aggregation loop knows of the adapter.
#[derive(Debug)]
pub struct Poller {
    stopped: bool,
    usage: GpuUsage,
}

impl View for Poller {
    type V = PollerView;

    closed spec fn view(&self) -> PollerView {
        PollerView { stopped: self.stopped, usage: self.usage@ }
    }
}

impl Poller {
    /// A poller that has queried nothing, and what it asks for first: a
    /// query.
    pub fn start() -> (started: (Self, PollerAction))
        ensures
            started.0@ == spec_poller_start(),
            started.1@ == PollerActionView::Query,
    {
        (Poller { stopped: false, usage: GpuUsage::default() }, PollerAction::Query)
    }

    /// Whether the poller has stopped.
    pub fn stopped(&self) -> (stopped: bool)
        ensures
            stopped == self@.stopped,
    {
        self.stopped
    }

    /// Takes one step: the poller moves to the next state, and the result
    /// is what the thread is to do now. See [`spec_poll`].
    pub fn step(&mut self, event: PollerEvent) -> (action: PollerAction)
        ensures
            (final(self)@, action@) == spec_poll(old(self)@, event@),
    {
        if self.stopped {
            return PollerAction::Stop;
        }
        match event {
            PollerEvent::Queried { reading } => match reading {
                Some(found) => {
                    self.usage.update(&found);
                    PollerAction::Send { sample: self.usage.sample() }
                },
                None => PollerAction::Sleep { secs: POLL_PAUSE_SECS },
            },
            PollerEvent::Sent { delivered } => {
                if delivered {
                    PollerAction::Sleep { secs: POLL_PAUSE_SECS }
                } else {
                    self.stopped = true;
                    PollerAction::Stop
                }
            },
            PollerEvent::Woke => PollerAction::Query,
        }
    }
}

/// The poller stops in one way only: a poller that has not stopped does
/// so on an event exactly if the event is a sample that could not be sent.
/// Once stopped it stays stopped.
pub proof fn law_poller_stops_on_failed_send_only(state: PollerView, event: PollerEventView)
    ensures
        state.stopped ==> spec_poll(state, event) == (state, PollerActionView::Stop),
        !state.stopped ==> (spec_poll(state, event).0.stopped <==> event == (
        PollerEventView::Sent { delivered: false })),
        !state.stopped ==> (spec_poll(state, event).1 is Stop <==> event == (
        PollerEventView::Sent { delivered: false })),
{
}

/// The poller sleeps after every attempt, whether the query failed or the
/// sample went out, always for [`POLL_PAUSE_SECS`], and it queries again
/// only after a sleep.
pub proof fn law_poller_sleeps_between_attempts(state: PollerView, event: PollerEventView)
    requires
        !state.stopped,
    ensures
        event == (PollerEventView::Queried { reading: None }) || event == (PollerEventView::Sent {
            delivered: true,
        }) ==> spec_poll(state, event).1 == (PollerActionView::Sleep { secs: POLL_PAUSE_SECS }),
        spec_poll(state, event).1 is Query <==> event is Woke,
{
}

} // verus!
