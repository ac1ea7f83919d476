use std::cell::Cell;
use std::rc::Rc;

use zenoh_shell_core::stream::{
    observe_after_cancel, observe_after_disconnect, step, AdapterState, CancelFlag,
    CancellableStreamAdapter, ModelAdapter, ModelChannel, PollOutcome, PullStep, StepResult,
    CHANNEL_CAPACITY, POLL_INTERVAL_MS,
};

/// A resource whose drop is counted, standing in for a network
/// registration handle.
struct CountedResource(Rc<Cell<u32>>);

impl Drop for CountedResource {
    fn drop(&mut self) {
        self.0.set(self.0.get() + 1);
    }
}

#[test]
fn constants_match_the_design() {
    assert_eq!(CHANNEL_CAPACITY, 256);
    assert_eq!(POLL_INTERVAL_MS, 50);
}

#[test]
fn transition_table_is_the_specified_one() {
    assert_eq!(
        step::<u32>(true, PollOutcome::Delivered(1)),
        (AdapterState::Terminated, StepResult::Stop)
    );
    assert_eq!(
        step::<u32>(false, PollOutcome::Delivered(1)),
        (AdapterState::Active, StepResult::Emit(1))
    );
    assert_eq!(
        step::<u32>(false, PollOutcome::TimedOut),
        (AdapterState::Active, StepResult::KeepPolling)
    );
    assert_eq!(
        step::<u32>(false, PollOutcome::Disconnected),
        (AdapterState::Terminated, StepResult::Stop)
    );
}

#[test]
fn adapter_delivers_queued_items_then_ends_on_disconnect() {
    let (tx, rx) = flume::bounded::<u32>(8);
    assert!(tx.try_send(10).is_ok());
    assert!(tx.try_send(20).is_ok());
    assert!(tx.try_send(30).is_ok());
    drop(tx);
    let mut a = CancellableStreamAdapter::new(rx, CancelFlag::new());
    assert_eq!(a.next(2), PullStep::Item(10));
    assert_eq!(a.next(2), PullStep::Item(20));
    assert_eq!(a.next(2), PullStep::Item(30));
    assert_eq!(a.next(2), PullStep::Ended);
    assert_eq!(a.next(2), PullStep::Ended);
}

#[test]
fn triggered_signal_ends_the_sequence_despite_queued_items() {
    let (tx, rx) = flume::bounded::<u32>(8);
    assert!(tx.try_send(1).is_ok());
    assert!(tx.try_send(2).is_ok());
    let flag = CancelFlag::new();
    flag.trigger();
    let mut a = CancellableStreamAdapter::new(rx, flag);
    assert_eq!(a.next(1000), PullStep::Ended);
    assert_eq!(a.next(1000), PullStep::Ended);
    drop(tx);
}

#[test]
fn quiet_channel_reports_pending_within_the_budget() {
    let (tx, rx) = flume::bounded::<u32>(8);
    let mut a = CancellableStreamAdapter::new(rx, CancelFlag::new());
    assert_eq!(a.next(1), PullStep::Pending);
    assert!(tx.try_send(5).is_ok());
    assert_eq!(a.next(1), PullStep::Item(5));
}

#[test]
fn bounded_channel_drops_sends_once_full() {
    let (tx, rx) = flume::bounded::<u32>(1);
    assert!(tx.try_send(1).is_ok());
    assert!(tx.try_send(2).is_err());
    drop(rx);
    assert!(tx.try_send(3).is_err());
}

#[test]
fn cancel_flag_is_shared_and_monotone() {
    let flag = CancelFlag::new();
    assert!(!flag.is_triggered());
    let shared = flag.clone();
    shared.trigger();
    assert!(flag.is_triggered());
    assert!(shared.is_triggered());
}

#[test]
fn dropping_the_adapter_releases_its_resource_exactly_once() {
    let count = Rc::new(Cell::new(0));
    let (tx, rx) = flume::bounded::<u32>(4);
    let a = CancellableStreamAdapter::with_resource(
        rx,
        CancelFlag::new(),
        CountedResource(count.clone()),
    );
    assert_eq!(count.get(), 0);
    drop(a);
    assert_eq!(count.get(), 1);
    drop(tx);
    assert_eq!(count.get(), 1);
}

#[test]
fn resource_survives_until_natural_termination() {
    let count = Rc::new(Cell::new(0));
    let (tx, rx) = flume::bounded::<u32>(4);
    assert!(tx.try_send(9).is_ok());
    drop(tx);
    let mut a = CancellableStreamAdapter::with_resource(
        rx,
        CancelFlag::new(),
        CountedResource(count.clone()),
    );
    assert_eq!(a.next(2), PullStep::Item(9));
    assert_eq!(count.get(), 0);
    assert_eq!(a.next(2), PullStep::Ended);
    assert_eq!(count.get(), 0);
    a.release();
    assert_eq!(count.get(), 1);
}

#[test]
fn model_queue_applies_lossy_backpressure() {
    let mut c: ModelChannel<u32> = ModelChannel::new(2);
    assert!(c.push(1));
    assert!(c.push(2));
    assert!(!c.push(3));
    assert_eq!(c.queue, vec![1, 2]);
}

#[test]
fn model_consumer_observes_queued_events_then_termination() {
    let mut c: ModelChannel<u32> = ModelChannel::new(8);
    assert!(c.push(1));
    assert!(c.push(2));
    assert!(c.push(3));
    c.disconnect();
    let mut m = ModelAdapter::new(c);
    let observed = observe_after_disconnect(&mut m);
    assert_eq!(observed, vec![1, 2, 3]);
    assert_eq!(m.state, AdapterState::Terminated);
    assert_eq!(m.next(), None);
}

#[test]
fn model_consumer_observes_nothing_after_cancellation() {
    let mut c: ModelChannel<u32> = ModelChannel::new(8);
    assert!(c.push(1));
    assert!(c.push(2));
    let mut m = ModelAdapter::new(c);
    m.cancel();
    let observed = observe_after_cancel(&mut m, 5);
    assert_eq!(observed, Vec::<u32>::new());
    assert_eq!(m.state, AdapterState::Terminated);
    assert_eq!(m.next(), None);
}
