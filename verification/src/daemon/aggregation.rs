//! The aggregation loop.
//!
//! On every tick the loop looks for the lock marker, has the samplers
//! refreshed, takes a sample of the graphics adapter if one is waiting,
//! assembles a snapshot, has it encoded and hands the text to the delivery
//! queue. [`spec_step`] is the whole of it as a function from state and event
//! to state and action; [`Aggregator::step`] computes that function.

use super::lifecycle::{LockScan, Phase, EXIT_ALREADY_RUNNING, EXIT_MARKER_GONE};
use crate::system_info::cpu::CpuUsage;
use crate::system_info::gpu::{sample_view, GpuSample, GpuUsage};
use crate::system_info::info::{GpuView, SnapshotView, SystemMessage, GPU};
use crate::system_info::mem::MemUsage;
use vstd::prelude::*;

verus! {

/// What the loop remembers between two events.
pub struct AggregatorView {
    pub phase: Phase,
    /// The last sample of the graphics adapter; `None` before the first.
    pub gpu: Option<GpuView>,
}

/// What the program reports to the loop.
pub enum EventView {
    Tick { lock: LockScan },
    Sampled { cpu: CpuUsage, mem: MemUsage, gpu: Option<GpuView> },
    Encoded { payload: Option<Seq<char>> },
    Enqueued { accepted: bool },
}

/// What the loop asks the program to do.
pub enum ActionView {
    Wait,
    Exit { code: i32 },
    Sample,
    Encode { message: SnapshotView },
    Enqueue { payload: Seq<char> },
}

/// The state in which the loop starts. Only the first instance runs.
pub open spec fn spec_start(first_instance: bool) -> AggregatorView {
    AggregatorView {
        phase: if first_instance {
            Phase::Running
        } else {
            Phase::Terminated { code: EXIT_ALREADY_RUNNING }
        },
        gpu: None,
    }
}

/// What the loop asks for before any event: a running loop waits for its
/// first tick, a loop that starts terminated asks for the exit.
pub open spec fn spec_first_action(first_instance: bool) -> ActionView {
    match spec_start(first_instance).phase {
        Phase::Running => ActionView::Wait,
        Phase::Terminated { code } => ActionView::Exit { code },
    }
}

/// The graphics adapter after a look into the channel: a sample that was
/// waiting replaces what was known, an empty channel changes nothing.
pub open spec fn spec_absorb(known: Option<GpuView>, arrived: Option<GpuView>) -> Option<GpuView> {
    if arrived is Some {
        arrived
    } else {
        known
    }
}

/// The snapshot of one tick.
pub open spec fn spec_assemble(cpu: CpuUsage, mem: MemUsage, gpu: Option<GpuView>) -> SnapshotView {
    SnapshotView {
        cpu_usage: cpu.total(),
        mem_used: mem.spec_used(),
        mem_total: mem.total,
        gpu_info: gpu,
    }
}

/// One step of the loop.
///
/// A loop that has terminated answers every event with its exit. A running
/// loop answers
/// - a tick with `Sample` if the lock marker is there, and else terminates
///   with [`EXIT_MARKER_GONE`];
/// - the samplers' values with the snapshot to encode, after taking in the
///   sample of the graphics adapter, if one came;
/// - an encoded snapshot with `Enqueue`, and a failed encoding with `Wait`,
///   which skips the tick;
/// - the outcome of handing the text to the queue with `Wait`, whatever it
///   was.
pub open spec fn spec_step(state: AggregatorView, event: EventView) -> (AggregatorView, ActionView) {
    match state.phase {
        Phase::Terminated { code } => (state, ActionView::Exit { code }),
        Phase::Running => match event {
            EventView::Tick { lock } => if lock.spec_present() {
                (state, ActionView::Sample)
            } else {
                (
                    AggregatorView {
                        phase: Phase::Terminated { code: EXIT_MARKER_GONE },
                        gpu: state.gpu,
                    },
                    ActionView::Exit { code: EXIT_MARKER_GONE },
                )
            },
            EventView::Sampled { cpu, mem, gpu } => {
                let known = spec_absorb(state.gpu, gpu);
                (
                    AggregatorView { phase: Phase::Running, gpu: known },
                    ActionView::Encode { message: spec_assemble(cpu, mem, known) },
                )
            },
            EventView::Encoded { payload } => match payload {
                Some(text) => (state, ActionView::Enqueue { payload: text }),
                None => (state, ActionView::Wait),
            },
            EventView::Enqueued { .. } => (state, ActionView::Wait),
        },
    }
}

/// What the program reports to the loop.
#[derive(Debug, PartialEq, Eq)]
pub enum Event {
    /// The timer fired and the lock marker was searched for.
    Tick { lock: LockScan },
    /// The samplers were refreshed, and the channel from the poller of the
    /// graphics adapter was looked into without waiting: `gpu` is the sample
    /// that was there, if any.
    Sampled { cpu: CpuUsage, mem: MemUsage, gpu: Option<GpuSample> },
    /// The snapshot was encoded; `None` if that failed.
    Encoded { payload: Option<String> },
    /// The text was handed to the delivery queue, or the queue refused it.
    Enqueued { accepted: bool },
}

/// What the loop asks the program to do.
#[derive(Debug, PartialEq, Eq)]
pub enum Action {
    /// Wait for the next tick, search for the lock marker, report `Tick`.
    Wait,
    /// Exit the process with this status.
    Exit { code: i32 },
    /// Refresh the samplers, look into the channel, report `Sampled`.
    Sample,
    /// Encode the snapshot, report `Encoded`.
    Encode { message: SystemMessage },
    /// Hand the text to the delivery queue, report `Enqueued`.
    Enqueue { payload: String },
}

impl View for Event {
    type V = EventView;

    open spec fn view(&self) -> EventView {
        match *self {
            Event::Tick { lock } => EventView::Tick { lock },
            Event::Sampled { cpu, mem, gpu } => EventView::Sampled {
                cpu,
                mem,
                gpu: match gpu {
                    Some(sample) => Some(sample_view(sample)),
                    None => None,
                },
            },
            Event::Encoded { payload } => EventView::Encoded {
                payload: match payload {
                    Some(text) => Some(text@),
                    None => None,
                },
            },
            Event::Enqueued { accepted } => EventView::Enqueued { accepted },
        }
    }
}

impl View for Action {
    type V = ActionView;

    open spec fn view(&self) -> ActionView {
        match *self {
            Action::Wait => ActionView::Wait,
            Action::Exit { code } => ActionView::Exit { code },
            Action::Sample => ActionView::Sample,
            Action::Encode { message } => ActionView::Encode { message: message@ },
            Action::Enqueue { payload } => ActionView::Enqueue { payload: payload@ },
        }
    }
}

/// What is known of the graphics adapter, as the model sees it.
pub open spec fn known_view(gpu: Option<GpuUsage>) -> Option<GpuView> {
    match gpu {
        Some(usage) => Some(usage@),
        None => None,
    }
}

/// Assembles the snapshot of one tick from what the samplers hold. The
/// graphics adapter is in it only if it was ever sampled.
pub fn assemble(cpu: &CpuUsage, mem: &MemUsage, gpu: &Option<GpuUsage>) -> (message: SystemMessage)
    ensures
        message@ == spec_assemble(*cpu, *mem, known_view(*gpu)),
        mem.idle <= mem.total ==> message.mem_used == mem.total - mem.idle,
        message.gpu_info is None <==> *gpu is None,
{
    let gpu_info: Option<GPU> = match gpu {
        Some(usage) => Some(usage.info()),
        None => None,
    };
    SystemMessage { cpu_usage: cpu.total(), mem_used: mem.used(), mem_total: mem.total, gpu_info }
}

/// The aggregation loop between two events.
#[derive(Debug)]
pub struct Aggregator {
    phase: Phase,
    gpu: Option<GpuUsage>,
}

impl View for Aggregator {
    type V = AggregatorView;

    closed spec fn view(&self) -> AggregatorView {
        AggregatorView { phase: self.phase, gpu: known_view(self.gpu) }
    }
}

impl Aggregator {
    /// The loop at the start of the process, and what it asks for first.
    /// `first_instance` says whether this process got the token that only
    /// one daemon can hold. Without it the loop starts terminated and asks
    /// for the exit with [`EXIT_ALREADY_RUNNING`]; with it the loop runs and
    /// waits for its first tick.
    pub fn start(first_instance: bool) -> (started: (Self, Action))
        ensures
            started.0@ == spec_start(first_instance),
            started.1@ == spec_first_action(first_instance),
    {
        if first_instance {
            (Aggregator { phase: Phase::Running, gpu: None }, Action::Wait)
        } else {
            (
                Aggregator { phase: Phase::Terminated { code: EXIT_ALREADY_RUNNING }, gpu: None },
                Action::Exit { code: EXIT_ALREADY_RUNNING },
            )
        }
    }

    /// The state of the loop.
    pub fn phase(&self) -> (phase: Phase)
        ensures
            phase == self@.phase,
    {
        self.phase
    }

    /// The exit status, once the loop has terminated.
    pub fn exit_code(&self) -> (code: Option<i32>)
        ensures
            code == match self@.phase {
                Phase::Running => None::<i32>,
                Phase::Terminated { code } => Some(code),
            },
    {
        match self.phase {
            Phase::Running => None,
            Phase::Terminated { code } => Some(code),
        }
    }

    /// Takes one step: the loop moves to the next state, and the result is
    /// what the program is to do now. See [`spec_step`].
    pub fn step(&mut self, event: Event) -> (action: Action)
        ensures
            (final(self)@, action@) == spec_step(old(self)@, event@),
    {
        match self.phase {
            Phase::Terminated { code } => Action::Exit { code },
            Phase::Running => match event {
                Event::Tick { lock } => {
                    if lock.present() {
                        Action::Sample
                    } else {
                        self.phase = Phase::Terminated { code: EXIT_MARKER_GONE };
                        Action::Exit { code: EXIT_MARKER_GONE }
                    }
                },
                Event::Sampled { cpu, mem, gpu } => {
                    match gpu {
                        Some(sample) => {
                            self.gpu = Some(GpuUsage::from_sample(sample));
                        },
                        None => {},
                    }
                    Action::Encode { message: assemble(&cpu, &mem, &self.gpu) }
                },
                Event::Encoded { payload } => match payload {
                    Some(text) => Action::Enqueue { payload: text },
                    None => Action::Wait,
                },
                Event::Enqueued { .. } => Action::Wait,
            },
        }
    }
}

} // verus!
