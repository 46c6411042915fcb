use zellij_load::daemon::poller::POLL_PAUSE_SECS;
use zellij_load::daemon::sink::{
    delivery_arguments, sink_start, sink_step, PIPE_NAME, PROGRAM, QUEUE_CAPACITY,
};
use zellij_load::daemon::{Poller, PollerAction, PollerEvent, SinkAction, SinkEvent};
use zellij_load::system_info::GpuReading;

fn adapter_reading() -> GpuReading {
    GpuReading {
        vendor: String::from("NVIDIA"),
        model: String::from("RTX4090"),
        used_vram: 2_000_000_000,
        total_vram: 24_000_000_000,
        load_pct: 37,
    }
}

#[test]
fn poller_pause_is_two_seconds() {
    assert_eq!(POLL_PAUSE_SECS, 2);
}

#[test]
fn poller_sends_what_a_query_found() {
    let (mut poller, _) = Poller::start();
    assert!(!poller.stopped());
    assert_eq!(
        poller.step(PollerEvent::Queried { reading: Some(adapter_reading()) }),
        PollerAction::Send {
            sample: (String::from("NVIDIA RTX4090"), 2_000_000_000, 24_000_000_000, 37)
        }
    );
    assert!(!poller.stopped());
}

#[test]
fn poller_sleeps_after_a_failed_query() {
    let (mut poller, _) = Poller::start();
    assert_eq!(poller.step(PollerEvent::Queried { reading: None }), PollerAction::Sleep { secs: 2 });
    assert!(!poller.stopped());
}

#[test]
fn poller_sleeps_after_a_sample_went_out() {
    let (mut poller, _) = Poller::start();
    assert_eq!(poller.step(PollerEvent::Sent { delivered: true }), PollerAction::Sleep { secs: 2 });
    assert!(!poller.stopped());
}

#[test]
fn poller_starts_with_a_query() {
    let (poller, first) = Poller::start();
    assert_eq!(first, PollerAction::Query);
    assert!(!poller.stopped());
}

#[test]
fn poller_queries_after_the_sleep() {
    let (mut poller, _) = Poller::start();
    assert_eq!(poller.step(PollerEvent::Woke), PollerAction::Query);
}

#[test]
fn poller_stops_when_the_channel_is_closed() {
    let (mut poller, _) = Poller::start();
    poller.step(PollerEvent::Queried { reading: Some(adapter_reading()) });
    assert_eq!(poller.step(PollerEvent::Sent { delivered: false }), PollerAction::Stop);
    assert!(poller.stopped());
    assert_eq!(poller.step(PollerEvent::Woke), PollerAction::Stop);
    assert_eq!(
        poller.step(PollerEvent::Queried { reading: Some(adapter_reading()) }),
        PollerAction::Stop
    );
    assert_eq!(poller.step(PollerEvent::Sent { delivered: true }), PollerAction::Stop);
    assert!(poller.stopped());
}

#[test]
fn poller_goes_round_while_the_channel_is_open() {
    let (mut poller, _) = Poller::start();
    for round in 0..3u32 {
        let reading = GpuReading { load_pct: round, ..adapter_reading() };
        assert_eq!(
            poller.step(PollerEvent::Queried { reading: Some(reading) }),
            PollerAction::Send {
                sample: (String::from("NVIDIA RTX4090"), 2_000_000_000, 24_000_000_000, round)
            }
        );
        assert_eq!(
            poller.step(PollerEvent::Sent { delivered: true }),
            PollerAction::Sleep { secs: 2 }
        );
        assert_eq!(poller.step(PollerEvent::Woke), PollerAction::Query);
    }
}

#[test]
fn sink_constants() {
    assert_eq!(PROGRAM, "zellij");
    assert_eq!(PIPE_NAME, "zellij-system-monitor");
    assert_eq!(QUEUE_CAPACITY, 100);
}

#[test]
fn delivery_arguments_name_the_pipe_and_end_with_the_message() {
    let payload = String::from("{\"cpu_usage\":42.5}");
    assert_eq!(
        delivery_arguments(payload),
        vec!["pipe", "--name", "zellij-system-monitor", "--", "{\"cpu_usage\":42.5}"]
    );
    assert_eq!(
        delivery_arguments(String::new()),
        vec!["pipe", "--name", "zellij-system-monitor", "--", ""]
    );
    assert_eq!(
        delivery_arguments(String::from("--name")),
        vec!["pipe", "--name", "zellij-system-monitor", "--", "--name"]
    );
}

#[test]
fn sink_starts_by_waiting_at_the_queue() {
    assert_eq!(sink_start(), SinkAction::Receive);
}

#[test]
fn sink_delivers_each_message_once() {
    let action = sink_step(SinkEvent::Received { payload: Some(String::from("{}")) });
    assert_eq!(
        action,
        SinkAction::Run {
            arguments: vec![
                String::from("pipe"),
                String::from("--name"),
                String::from("zellij-system-monitor"),
                String::from("--"),
                String::from("{}"),
            ]
        }
    );
}

#[test]
fn sink_waits_again_after_any_delivery() {
    assert_eq!(sink_step(SinkEvent::Delivered { succeeded: true }), SinkAction::Receive);
    assert_eq!(sink_step(SinkEvent::Delivered { succeeded: false }), SinkAction::Receive);
    assert_eq!(sink_step(SinkEvent::Received { payload: None }), SinkAction::Receive);
}
