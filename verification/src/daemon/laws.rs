//! What holds of every run of the aggregation loop.
//!
//! A run is a start state and the sequence of events that the program
//! reported. The laws below speak of the states that the loop passes through
//! and of the actions that it returns on the way.

use super::aggregation::{
    spec_absorb, spec_first_action, spec_start, spec_step, ActionView, AggregatorView, EventView,
};
use super::lifecycle::{Phase, EXIT_ALREADY_RUNNING, EXIT_MARKER_GONE};
use crate::system_info::cpu::CpuUsage;
use crate::system_info::info::GpuView;
use crate::system_info::mem::MemUsage;
use vstd::prelude::*;

verus! {

/// The state of the loop after it took in `events`, one after the other.
pub open spec fn run(state: AggregatorView, events: Seq<EventView>) -> AggregatorView
    decreases events.len(),
{
    if events.len() == 0 {
        state
    } else {
        spec_step(run(state, events.drop_last()), events.last()).0
    }
}

/// The action with which the loop answered the event at index `at`.
pub open spec fn action_at(state: AggregatorView, events: Seq<EventView>, at: int) -> ActionView
    recommends
        0 <= at < events.len(),
{
    spec_step(run(state, events.take(at)), events[at]).1
}

/// The event is a tick on which the lock marker was not found.
pub open spec fn marker_gone(event: EventView) -> bool {
    event matches EventView::Tick { lock } && !lock.spec_present()
}

/// The event carries a sample of the graphics adapter.
pub open spec fn brings_sample(event: EventView) -> bool {
    event matches EventView::Sampled { gpu, .. } && gpu is Some
}

/// The texts that the loop handed to the delivery queue while it took in
/// `events`, in the order in which it did.
pub open spec fn enqueued(state: AggregatorView, events: Seq<EventView>) -> Seq<Seq<char>>
    decreases events.len(),
{
    if events.len() == 0 {
        Seq::empty()
    } else {
        let before = enqueued(state, events.drop_last());
        match spec_step(run(state, events.drop_last()), events.last()).1 {
            ActionView::Enqueue { payload } => before.push(payload),
            _ => before,
        }
    }
}

/// The texts that came out of the encoding in `events`, in their order.
pub open spec fn encoded(events: Seq<EventView>) -> Seq<Seq<char>>
    decreases events.len(),
{
    if events.len() == 0 {
        Seq::empty()
    } else {
        let before = encoded(events.drop_last());
        match events.last() {
            EventView::Encoded { payload: Some(text) } => before.push(text),
            _ => before,
        }
    }
}

/// Taking in one more event is one more step.
pub proof fn lemma_run_unfolds(state: AggregatorView, events: Seq<EventView>, at: int)
    requires
        0 <= at < events.len(),
    ensures
        run(state, events.take(at + 1)) == spec_step(run(state, events.take(at)), events[at]).0,
{
    assert(events.take(at + 1).drop_last() =~= events.take(at));
}

/// A loop that runs after some events ran after each shorter beginning of
/// them.
pub proof fn lemma_running_all_along(
    state: AggregatorView,
    events: Seq<EventView>,
    early: int,
    late: int,
)
    requires
        0 <= early <= late <= events.len(),
        run(state, events.take(late)).phase is Running,
    ensures
        run(state, events.take(early)).phase is Running,
    decreases late - early,
{
    if early < late {
        lemma_run_unfolds(state, events, late - 1);
        lemma_running_all_along(state, events, early, late - 1);
    }
}

/// A loop that has terminated stays as it is, whatever is reported to it.
pub proof fn law_terminated_is_final(state: AggregatorView, events: Seq<EventView>)
    requires
        state.phase is Terminated,
    ensures
        run(state, events) == state,
    decreases events.len(),
{
    if events.len() > 0 {
        law_terminated_is_final(state, events.drop_last());
    }
}

/// The loop terminates in one way only: a running loop terminates on an
/// event exactly if the event is a tick on which the lock marker was not
/// found. No failure of a sampler, of the encoding or of the delivery ends
/// it.
pub proof fn law_only_a_missing_marker_terminates(state: AggregatorView, event: EventView)
    requires
        state.phase is Running,
    ensures
        spec_step(state, event).0.phase is Terminated <==> marker_gone(event),
        marker_gone(event) ==> spec_step(state, event).0.phase == (Phase::Terminated {
            code: EXIT_MARKER_GONE,
        }),
{
}

/// Once a tick did not find the lock marker, the loop asks for nothing but
/// the exit with status zero: on that tick and on every later event it
/// neither samples nor delivers.
pub proof fn law_nothing_follows_a_missing_marker(
    state: AggregatorView,
    events: Seq<EventView>,
    tick: int,
)
    requires
        0 <= tick < events.len(),
        run(state, events.take(tick)).phase is Running,
        marker_gone(events[tick]),
    ensures
        EXIT_MARKER_GONE == 0,
        forall|at: int|
            tick <= at < events.len() ==> #[trigger] action_at(state, events, at) == (
            ActionView::Exit { code: EXIT_MARKER_GONE }),
{
    let ended = run(state, events.take(tick + 1));
    lemma_run_unfolds(state, events, tick);
    assert forall|at: int| tick <= at < events.len() implies #[trigger] action_at(
        state,
        events,
        at,
    ) == (ActionView::Exit { code: EXIT_MARKER_GONE }) by {
        if at > tick {
            lemma_run_splits(state, events.take(at), tick + 1);
            assert(events.take(at).take(tick + 1) =~= events.take(tick + 1));
            law_terminated_is_final(ended, events.take(at).skip(tick + 1));
        }
    }
}

/// A run can be cut in two at any place.
pub proof fn lemma_run_splits(state: AggregatorView, events: Seq<EventView>, at: int)
    requires
        0 <= at <= events.len(),
    ensures
        run(state, events) == run(run(state, events.take(at)), events.skip(at)),
    decreases events.len(),
{
    if at == events.len() {
        assert(events.take(at) =~= events);
        assert(events.skip(at) =~= Seq::<EventView>::empty());
    } else {
        lemma_run_splits(state, events.drop_last(), at);
        assert(events.drop_last().take(at) =~= events.take(at));
        assert(events.drop_last().skip(at) =~= events.skip(at).drop_last());
    }
}

/// An instance that starts while another one holds the token never samples
/// and never delivers: from the start, and whatever is reported to it, it
/// asks for the exit with a status that is not zero.
pub proof fn law_second_instance_only_exits(events: Seq<EventView>)
    ensures
        EXIT_ALREADY_RUNNING != 0,
        spec_first_action(false) == (ActionView::Exit { code: EXIT_ALREADY_RUNNING }),
        forall|at: int|
            0 <= at < events.len() ==> #[trigger] action_at(spec_start(false), events, at) == (
            ActionView::Exit { code: EXIT_ALREADY_RUNNING }),
{
    assert forall|at: int| 0 <= at < events.len() implies #[trigger] action_at(
        spec_start(false),
        events,
        at,
    ) == (ActionView::Exit { code: EXIT_ALREADY_RUNNING }) by {
        law_terminated_is_final(spec_start(false), events.take(at));
    }
}

/// The snapshot of a tick reports what the samplers held: the load of the
/// processors, the size of the memory and, as memory in use, the size less
/// what was available.
pub proof fn law_snapshot_reports_the_samplers(
    state: AggregatorView,
    cpu: CpuUsage,
    mem: MemUsage,
    gpu: Option<GpuView>,
)
    requires
        state.phase is Running,
        mem.idle <= mem.total,
    ensures
        spec_step(state, EventView::Sampled { cpu, mem, gpu }).1 is Encode,
        spec_step(state, EventView::Sampled { cpu, mem, gpu }).1->message.cpu_usage == cpu.total(),
        spec_step(state, EventView::Sampled { cpu, mem, gpu }).1->message.mem_total == mem.total,
        spec_step(state, EventView::Sampled { cpu, mem, gpu }).1->message.mem_used == mem.total
            - mem.idle,
{
}

/// The loop keeps no history: what it remembers after a tick depends on
/// what it remembered before and on the sample of the graphics adapter,
/// never on the loads and counters that went into the snapshot.
pub proof fn law_no_snapshot_is_remembered(
    state: AggregatorView,
    cpu: CpuUsage,
    mem: MemUsage,
    other_cpu: CpuUsage,
    other_mem: MemUsage,
    gpu: Option<GpuView>,
)
    ensures
        spec_step(state, EventView::Sampled { cpu, mem, gpu }).0 == spec_step(
            state,
            EventView::Sampled { cpu: other_cpu, mem: other_mem, gpu },
        ).0,
{
}

/// While the loop runs, every snapshot that was encoded goes to the delivery
/// queue, once, as it is and in its turn: nothing is dropped, repeated or
/// reordered.
pub proof fn law_encoded_snapshots_are_enqueued_in_order(
    state: AggregatorView,
    events: Seq<EventView>,
)
    requires
        run(state, events).phase is Running,
    ensures
        enqueued(state, events) == encoded(events),
    decreases events.len(),
{
    if events.len() > 0 {
        assert(events.take(events.len() as int) =~= events);
        assert(events.take(events.len() - 1) =~= events.drop_last());
        lemma_running_all_along(state, events, events.len() - 1, events.len() as int);
        law_encoded_snapshots_are_enqueued_in_order(state, events.drop_last());
    }
}

/// Events that bring no sample of the graphics adapter leave what is known
/// of it as it was.
pub proof fn lemma_known_gpu_kept(state: AggregatorView, events: Seq<EventView>)
    requires
        forall|at: int| 0 <= at < events.len() ==> !brings_sample(#[trigger] events[at]),
    ensures
        run(state, events).gpu == state.gpu,
    decreases events.len(),
{
    if events.len() > 0 {
        let shorter = events.drop_last();
        assert forall|at: int| 0 <= at < shorter.len() implies !brings_sample(
            #[trigger] shorter[at],
        ) by {
            assert(shorter[at] == events[at]);
        }
        lemma_known_gpu_kept(state, shorter);
        assert(!brings_sample(events[events.len() - 1]));
    }
}

/// A snapshot is without the graphics adapter exactly if no sample of it
/// has arrived since the process started: the snapshot that answers the
/// event at `at` has no `gpu_info` if and only if no event up to and
/// including that one brought a sample.
pub proof fn law_gpu_absent_until_first_sample(
    first_instance: bool,
    events: Seq<EventView>,
    at: int,
)
    requires
        0 <= at < events.len(),
        action_at(spec_start(first_instance), events, at) is Encode,
    ensures
        action_at(spec_start(first_instance), events, at)->message.gpu_info is None <==> forall|
            before: int,
        |
            0 <= before <= at ==> !brings_sample(#[trigger] events[before]),
{
    let start = spec_start(first_instance);
    let reached = run(start, events.take(at));
    assert(reached.phase is Running);
    lemma_known_iff_sampled(start, events, at);
    if brings_sample(events[at]) {
    } else {
        if reached.gpu is None {
            assert forall|before: int| 0 <= before <= at implies !brings_sample(
                #[trigger] events[before],
            ) by {
                if before < at {
                    assert(events.take(at)[before] == events[before]);
                }
            }
        } else {
            let witness = choose|before: int|
                0 <= before < at && brings_sample(#[trigger] events.take(at)[before]);
            assert(brings_sample(events[witness]));
        }
    }
}

/// While the loop runs from a state that knows no graphics adapter, it
/// knows one exactly if some event brought a sample.
proof fn lemma_known_iff_sampled(start: AggregatorView, events: Seq<EventView>, upto: int)
    requires
        0 <= upto <= events.len(),
        start.gpu is None,
        run(start, events.take(upto)).phase is Running,
    ensures
        run(start, events.take(upto)).gpu is Some <==> exists|before: int|
            0 <= before < upto && brings_sample(#[trigger] events.take(upto)[before]),
    decreases upto,
{
    if upto > 0 {
        let shorter = events.take(upto - 1);
        lemma_run_unfolds(start, events, upto - 1);
        lemma_running_all_along(start, events, upto - 1, upto);
        lemma_known_iff_sampled(start, events, upto - 1);
        let last = events[upto - 1];
        assert(events.take(upto)[upto - 1] == last);
        if brings_sample(last) {
        } else if run(start, shorter).gpu is Some {
            let witness = choose|before: int|
                0 <= before < upto - 1 && brings_sample(#[trigger] shorter[before]);
            assert(events.take(upto)[witness] == shorter[witness]);
        } else {
            assert forall|before: int| 0 <= before < upto implies !brings_sample(
                #[trigger] events.take(upto)[before],
            ) by {
                if before < upto - 1 {
                    assert(events.take(upto)[before] == shorter[before]);
                }
            }
        }
    }
}

/// What is known of the graphics adapter is kept while nothing new arrives:
/// of two snapshots, the later carries the same `gpu_info` as the earlier
/// if no event after the earlier one, up to and including the later one,
/// brought a sample.
pub proof fn law_gpu_kept_without_new_sample(
    state: AggregatorView,
    events: Seq<EventView>,
    earlier: int,
    later: int,
)
    requires
        0 <= earlier < later < events.len(),
        action_at(state, events, earlier) is Encode,
        action_at(state, events, later) is Encode,
        forall|at: int| earlier < at <= later ==> !brings_sample(#[trigger] events[at]),
    ensures
        action_at(state, events, later)->message.gpu_info == action_at(
            state,
            events,
            earlier,
        )->message.gpu_info,
{
    let after_earlier = run(state, events.take(earlier + 1));
    lemma_run_unfolds(state, events, earlier);
    let between = events.take(later).skip(earlier + 1);
    lemma_run_splits(state, events.take(later), earlier + 1);
    assert(events.take(later).take(earlier + 1) =~= events.take(earlier + 1));
    assert forall|at: int| 0 <= at < between.len() implies !brings_sample(
        #[trigger] between[at],
    ) by {
        assert(between[at] == events[earlier + 1 + at]);
    }
    lemma_known_gpu_kept(after_earlier, between);
    assert(!brings_sample(events[later]));
    assert(spec_absorb(after_earlier.gpu, None) == after_earlier.gpu);
}

} // verus!
