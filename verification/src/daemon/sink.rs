//! The distribution sink.
//!
//! The sink takes encoded snapshots from its queue, in the order in which the
//! aggregation loop put them there, and hands each to the display client by
//! running the client's command line tool once. A delivery that fails is
//! not tried again: the next tick brings a newer snapshot anyway.

use vstd::prelude::*;
use vstd::string::*;

verus! {

/// The tool that delivers a message to the display client.
pub const PROGRAM: &'static str = "zellij";

/// The name of the pipe on which the display client listens.
pub const PIPE_NAME: &'static str = "zellij-system-monitor";

/// Encoded snapshots that the queue between the aggregation loop and the
/// sink can hold.
pub const QUEUE_CAPACITY: usize = 100;

/// The arguments with which [`PROGRAM`] delivers `payload`: the message goes
/// to the pipe named [`PIPE_NAME`], and follows `--` so that nothing in it is
/// taken for an option.
pub open spec fn spec_delivery_arguments(payload: Seq<char>) -> Seq<Seq<char>> {
    seq!["pipe"@, "--name"@, PIPE_NAME@, "--"@, payload]
}

/// The arguments with which [`PROGRAM`] delivers `payload`.
pub fn delivery_arguments(payload: String) -> (arguments: Vec<String>)
    ensures
        arguments.deep_view() == spec_delivery_arguments(payload@),
{
    let arguments: Vec<String> = vec![
        String::from_str("pipe"),
        String::from_str("--name"),
        String::from_str(PIPE_NAME),
        String::from_str("--"),
        payload,
    ];
    assert(arguments.deep_view() =~= spec_delivery_arguments(payload@));
    arguments
}

/// What the program reports to the sink.
pub enum SinkEventView {
    Received { payload: Option<Seq<char>> },
    Delivered { succeeded: bool },
}

/// What the sink asks the program to do.
pub enum SinkActionView {
    Receive,
    Run { arguments: Seq<Seq<char>> },
}

/// One step of the sink. A message that came off the queue is delivered;
/// after a delivery, whatever became of it, and after a look at the queue
/// that brought nothing, the sink waits for the next message.
pub open spec fn spec_sink(event: SinkEventView) -> SinkActionView {
    match event {
        SinkEventView::Received { payload } => match payload {
            Some(text) => SinkActionView::Run { arguments: spec_delivery_arguments(text) },
            None => SinkActionView::Receive,
        },
        SinkEventView::Delivered { .. } => SinkActionView::Receive,
    }
}

/// What the program reports to the sink.
#[derive(Debug, PartialEq, Eq)]
pub enum SinkEvent {
    /// The wait at the queue is over: with a message, or without one.
    Received { payload: Option<String> },
    /// [`PROGRAM`] was run; `succeeded` says whether it could be started
    /// and ended with success.
    Delivered { succeeded: bool },
}

/// What the sink asks the program to do.
#[derive(Debug, PartialEq, Eq)]
pub enum SinkAction {
    /// Wait at the queue for the next message, report `Received`.
    Receive,
    /// Run [`PROGRAM`] with these arguments and wait for it to end, report
    /// `Delivered`.
    Run { arguments: Vec<String> },
}

impl View for SinkEvent {
    type V = SinkEventView;

    open spec fn view(&self) -> SinkEventView {
        match *self {
            SinkEvent::Received { payload } => SinkEventView::Received {
                payload: match payload {
                    Some(text) => Some(text@),
                    None => None,
                },
            },
            SinkEvent::Delivered { succeeded } => SinkEventView::Delivered { succeeded },
        }
    }
}

impl View for SinkAction {
    type V = SinkActionView;

    open spec fn view(&self) -> SinkActionView {
        match *self {
            SinkAction::Receive => SinkActionView::Receive,
            SinkAction::Run { arguments } => SinkActionView::Run {
                arguments: arguments.deep_view(),
            },
        }
    }
}

/// What the sink asks for first: it waits at the queue.
pub fn sink_start() -> (action: SinkAction)
    ensures
        action@ == SinkActionView::Receive,
{
    SinkAction::Receive
}

/// Takes one step of the sink, see [`spec_sink`].
pub fn sink_step(event: SinkEvent) -> (action: SinkAction)
    ensures
        action@ == spec_sink(event@),
{
    match event {
        SinkEvent::Received { payload } => match payload {
            Some(text) => SinkAction::Run { arguments: delivery_arguments(text) },
            None => SinkAction::Receive,
        },
        SinkEvent::Delivered { .. } => SinkAction::Receive,
    }
}

/// The messages that the sink had delivered while it took in `events`, in
/// the order in which it did.
pub open spec fn delivered(events: Seq<SinkEventView>) -> Seq<Seq<Seq<char>>>
    decreases events.len(),
{
    if events.len() == 0 {
        Seq::empty()
    } else {
        let before = delivered(events.drop_last());
        match spec_sink(events.last()) {
            SinkActionView::Run { arguments } => before.push(arguments),
            SinkActionView::Receive => before,
        }
    }
}

/// The messages that came off the queue in `events`, in their order.
pub open spec fn received(events: Seq<SinkEventView>) -> Seq<Seq<char>>
    decreases events.len(),
{
    if events.len() == 0 {
        Seq::empty()
    } else {
        let before = received(events.drop_last());
        match events.last() {
            SinkEventView::Received { payload: Some(text) } => before.push(text),
            _ => before,
        }
    }
}

/// Every message that comes off the queue is delivered once, in its turn,
/// with the arguments of [`spec_delivery_arguments`]: the sink neither
/// drops, repeats nor reorders, whatever became of earlier deliveries.
pub proof fn law_each_message_is_delivered_once_in_order(events: Seq<SinkEventView>)
    ensures
        delivered(events) == received(events).map_values(
            |text: Seq<char>| spec_delivery_arguments(text),
        ),
    decreases events.len(),
{
    if events.len() > 0 {
        law_each_message_is_delivered_once_in_order(events.drop_last());
        let before = received(events.drop_last());
        match events.last() {
            SinkEventView::Received { payload: Some(text) } => {
                assert(before.push(text).map_values(
                    |text: Seq<char>| spec_delivery_arguments(text),
                ) =~= before.map_values(|text: Seq<char>| spec_delivery_arguments(text)).push(
                    spec_delivery_arguments(text),
                ));
            },
            _ => {},
        }
    } else {
        assert(received(events).map_values(|text: Seq<char>| spec_delivery_arguments(text))
            =~= Seq::<Seq<Seq<char>>>::empty());
    }
}

/// A delivery that failed is neither tried again nor held against the
/// daemon: the sink goes on to the next message as after one that
/// succeeded.
pub proof fn law_failed_delivery_is_dropped()
    ensures
        spec_sink(SinkEventView::Delivered { succeeded: false }) == SinkActionView::Receive,
        spec_sink(SinkEventView::Delivered { succeeded: false }) == spec_sink(
            SinkEventView::Delivered { succeeded: true },
        ),
{
}

} // verus!
