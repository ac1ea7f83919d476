//! The cancellable stream adapter: a state machine with two states,
//! Active and Terminated (terminal), that turns a callback-fed bounded
//! channel into a lazily pulled, interruptible sequence.
//!
//! Pulling repeatedly attempts a bounded-wait receive and checks the
//! shared cancellation signal between attempts, so an interruption
//! requested from another thread is observed within one poll interval
//! rather than only at the next delivered event. The adapter owns an
//! optional network resource handle for exactly as long as it lives:
//! the handle is released when the adapter is dropped, never before.
//!
//! [`ModelChannel`] and [`ModelAdapter`] are the executable model of
//! the same transition table over an in-memory queue; the model is
//! where the drain guarantees (everything queued is observed in order
//! after disconnection; nothing is observed after cancellation or
//! termination) are stated and proved.

use vstd::prelude::*;

verus! {

/// Capacity of the bounded channel between a network callback and the
/// adapter: once full, the callback's send fails silently and that
/// event is dropped rather than blocking the network thread.
pub const CHANNEL_CAPACITY: usize = 256;

/// How long one receive attempt waits before the cancellation signal
/// is checked again, in milliseconds.
pub const POLL_INTERVAL_MS: u64 = 50;

// ---------------------------------------------------------------------
// The transition table
// ---------------------------------------------------------------------
/// What one bounded-wait receive attempt yielded.
#[derive(Debug, PartialEq, Eq)]
pub enum PollOutcome<T> {
    /// A value arrived before the poll interval elapsed.
    Delivered(T),
    /// The poll interval elapsed with no value.
    TimedOut,
    /// Every sender is gone: the callback will never fire again.
    Disconnected,
}

/// The two states of the adapter; Terminated is terminal.
#[derive(Clone, Copy, PartialEq, Eq, Structural, Debug)]
pub enum AdapterState {
    Active,
    Terminated,
}

/// What the adapter does after consulting the cancellation signal and
/// one poll outcome.
#[derive(Debug, PartialEq, Eq)]
pub enum StepResult<T> {
    /// Return the delivered value and stay Active.
    Emit(T),
    /// Nothing happened within the poll interval: check the signal
    /// and poll again.
    KeepPolling,
    /// Report no more items, now and on every later pull.
    Stop,
}

/// What one pull attempt of the adapter yielded.
#[derive(Debug, PartialEq, Eq)]
pub enum PullStep<T> {
    /// The next item of the sequence.
    Item(T),
    /// Nothing arrived within the allotted poll intervals; the
    /// sequence is still Active and may be pulled again.
    Pending,
    /// The sequence is over: the signal was triggered, the channel
    /// disconnected, or the adapter had already terminated.
    Ended,
}

/// The adapter's transition table: a triggered signal terminates
/// regardless of anything still queued; a delivered value is emitted
/// immediately; a timeout polls again; disconnection terminates.
pub open spec fn step_spec<T>(cancelled: bool, o: PollOutcome<T>) -> (AdapterState, StepResult<
    T,
>) {
    if cancelled {
        (AdapterState::Terminated, StepResult::Stop)
    } else {
        match o {
            PollOutcome::Delivered(t) => (AdapterState::Active, StepResult::Emit(t)),
            PollOutcome::TimedOut => (AdapterState::Active, StepResult::KeepPolling),
            PollOutcome::Disconnected => (AdapterState::Terminated, StepResult::Stop),
        }
    }
}

/// One transition of the adapter's state machine, exactly as
/// [`step_spec`] describes.
pub fn step<T>(cancelled: bool, o: PollOutcome<T>) -> (r: (AdapterState, StepResult<T>))
    ensures
        r == step_spec(cancelled, o),
{
    if cancelled {
        (AdapterState::Terminated, StepResult::Stop)
    } else {
        match o {
            PollOutcome::Delivered(t) => (AdapterState::Active, StepResult::Emit(t)),
            PollOutcome::TimedOut => (AdapterState::Active, StepResult::KeepPolling),
            PollOutcome::Disconnected => (AdapterState::Terminated, StepResult::Stop),
        }
    }
}

// ---------------------------------------------------------------------
// The shared cancellation signal
// ---------------------------------------------------------------------
/// The process-wide cancellation signal: shared by reference across
/// all concurrently active adapters, it transitions monotonically from
/// not-triggered to triggered and never resets.
#[derive(Clone)]
pub struct CancelFlag {
    flag: std::sync::Arc<core::sync::atomic::AtomicBool>,
}

impl CancelFlag {
    /// A fresh, untriggered signal.
    pub fn new() -> CancelFlag {
        CancelFlag {
            flag: std::sync::Arc::new(core::sync::atomic::AtomicBool::new(false)),
        }
    }

    /// Trigger the signal; every adapter sharing it observes the
    /// trigger within one poll interval.
    pub fn trigger(&self) {
        (&*self.flag).store(true, core::sync::atomic::Ordering::SeqCst);
    }

    /// Whether the signal has been triggered. Another thread may
    /// trigger it at any time, so nothing is promised of the answer.
    pub fn is_triggered(&self) -> bool {
        (&*self.flag).load(core::sync::atomic::Ordering::SeqCst)
    }
}

// ---------------------------------------------------------------------
// The real adapter over a bounded channel
// ---------------------------------------------------------------------
#[verifier::external_type_specification]
#[verifier::external_body]
#[verifier::reject_recursive_types(T)]
pub struct ExFlumeReceiver<T>(flume::Receiver<T>);

/// Relies on `flume::Receiver::recv_timeout`: it waits at most the
/// given number of milliseconds for a value, and reports
/// disconnection only once every sender is gone. Which outcome comes
/// back depends on concurrent senders, so nothing is promised of it.
#[verifier::external_body]
fn channel_poll<T>(rx: &flume::Receiver<T>, timeout_ms: u64) -> PollOutcome<T> {
    match rx.recv_timeout(core::time::Duration::from_millis(timeout_ms)) {
        Ok(t) => PollOutcome::Delivered(t),
        Err(flume::RecvTimeoutError::Timeout) => PollOutcome::TimedOut,
        Err(flume::RecvTimeoutError::Disconnected) => PollOutcome::Disconnected,
    }
}

/// The interruptible, lazily pulled sequence: the receiving end of a
/// bounded channel, a reference to the shared cancellation signal, and
/// an owned resource handle whose lifetime is tied to the adapter's.
#[verifier::reject_recursive_types(T)]
pub struct CancellableStreamAdapter<T, D> {
    receiver: flume::Receiver<T>,
    signal: CancelFlag,
    resource: D,
    state: AdapterState,
}

impl<T, D> CancellableStreamAdapter<T, D> {
    /// The state-machine state the adapter is in.
    pub closed spec fn state(&self) -> AdapterState {
        self.state
    }

    /// The resource handle the adapter owns.
    pub closed spec fn owned_resource(&self) -> D {
        self.resource
    }

    /// Wrap a channel, the shared signal, and an owned resource handle
    /// of the network operation that feeds the channel. The handle is
    /// released only when the adapter itself is dropped.
    pub fn with_resource(receiver: flume::Receiver<T>, signal: CancelFlag, resource: D) -> (r:
        CancellableStreamAdapter<T, D>)
        ensures
            r.state() == AdapterState::Active,
            r.owned_resource() == resource,
    {
        CancellableStreamAdapter { receiver, signal, resource, state: AdapterState::Active }
    }

    /// One iteration of the pull loop: consult the cancellation
    /// signal, then make one bounded-wait receive attempt. The call
    /// blocks the calling thread for at most one poll interval; a
    /// triggered signal or a disconnected channel terminates the
    /// sequence, and a Terminated adapter reports the end on this and
    /// on every later pull.
    pub fn poll_once(&mut self) -> (r: PullStep<T>)
        ensures
            old(self).state() == AdapterState::Terminated ==> r is Ended,
            r is Ended ==> final(self).state() == AdapterState::Terminated,
            r is Item ==> old(self).state() == AdapterState::Active && final(self).state()
                == AdapterState::Active,
            r is Pending ==> old(self).state() == AdapterState::Active && final(self).state()
                == AdapterState::Active,
            final(self).owned_resource() == old(self).owned_resource(),
    {
        if matches!(self.state, AdapterState::Terminated) {
            return PullStep::Ended;
        }
        let cancelled = self.signal.is_triggered();
        if cancelled {
            self.state = AdapterState::Terminated;
            return PullStep::Ended;
        }
        let outcome = channel_poll(&self.receiver, POLL_INTERVAL_MS);
        let (next_state, action) = step(false, outcome);
        self.state = next_state;
        match action {
            StepResult::Emit(t) => PullStep::Item(t),
            StepResult::KeepPolling => PullStep::Pending,
            StepResult::Stop => PullStep::Ended,
        }
    }

    /// Pull the next item, waiting at most `max_polls` poll intervals:
    /// the pull loop of the adapter, bounded by the caller's patience.
    /// The cancellation signal is checked once per interval, so an
    /// interruption is observed within one interval; a caller that
    /// wants to wait indefinitely calls again on Pending.
    pub fn next(&mut self, max_polls: usize) -> (r: PullStep<T>)
        ensures
            old(self).state() == AdapterState::Terminated ==> r is Ended,
            r is Ended ==> final(self).state() == AdapterState::Terminated,
            r is Item ==> old(self).state() == AdapterState::Active && final(self).state()
                == AdapterState::Active,
            r is Pending ==> final(self).state() == AdapterState::Active,
            final(self).owned_resource() == old(self).owned_resource(),
    {
        let mut i: usize = 0;
        while i < max_polls
            invariant
                self.resource == old(self).resource,
                i > 0 ==> self.state == AdapterState::Active && old(self).state
                    == AdapterState::Active,
                i == 0 ==> *self == *old(self),
            decreases max_polls - i,
        {
            let r = self.poll_once();
            match r {
                PullStep::Pending => {
                    i = i + 1;
                },
                _ => {
                    return r;
                },
            }
        }
        if matches!(self.state, AdapterState::Terminated) {
            PullStep::Ended
        } else {
            PullStep::Pending
        }
    }

    /// Give the adapter up without pulling further; the owned resource
    /// handle is dropped with it, exactly once.
    pub fn release(self) {
    }
}

impl<T> CancellableStreamAdapter<T, ()> {
    /// Wrap a channel and the shared signal with no owned resource,
    /// for operations that are fire-and-forget once accepted.
    pub fn new(receiver: flume::Receiver<T>, signal: CancelFlag) -> (r: CancellableStreamAdapter<
        T,
        (),
    >)
        ensures
            r.state() == AdapterState::Active,
    {
        CancellableStreamAdapter { receiver, signal, resource: (), state: AdapterState::Active }
    }
}

// ---------------------------------------------------------------------
// The executable model
// ---------------------------------------------------------------------
/// Model of the bounded channel between a network callback and one
/// consumer: a FIFO queue with the lossy backpressure policy, plus
/// whether any sender is still live.
pub struct ModelChannel<T> {
    pub queue: Vec<T>,
    pub capacity: usize,
    pub senders_live: bool,
}

impl<T> ModelChannel<T> {
    /// An empty channel with live senders.
    pub fn new(capacity: usize) -> (r: ModelChannel<T>)
        ensures
            r.queue@.len() == 0,
            r.capacity == capacity,
            r.senders_live,
    {
        ModelChannel { queue: Vec::new(), capacity, senders_live: true }
    }

    /// The network-side callback send: when the queue is full the
    /// event is dropped silently rather than blocking the sender.
    pub fn push(&mut self, item: T) -> (accepted: bool)
        ensures
            accepted == (old(self).queue@.len() < old(self).capacity),
            accepted ==> final(self).queue@ == old(self).queue@.push(item),
            !accepted ==> final(self).queue@ == old(self).queue@,
            final(self).capacity == old(self).capacity,
            final(self).senders_live == old(self).senders_live,
    {
        if self.queue.len() < self.capacity {
            self.queue.push(item);
            true
        } else {
            false
        }
    }

    /// Every sender goes away: whatever is queued stays deliverable,
    /// and after that the channel reports disconnection.
    pub fn disconnect(&mut self)
        ensures
            final(self).queue@ == old(self).queue@,
            final(self).capacity == old(self).capacity,
            !final(self).senders_live,
    {
        self.senders_live = false;
    }

    /// One receive attempt: the front of the queue when one is there,
    /// disconnection when the queue is empty and no sender is left,
    /// and a timeout otherwise.
    pub fn poll(&mut self) -> (r: PollOutcome<T>)
        ensures
            final(self).capacity == old(self).capacity,
            final(self).senders_live == old(self).senders_live,
            old(self).queue@.len() > 0 ==> (r matches PollOutcome::Delivered(t) && t == old(self).queue@[0] && final(self).queue@ == old(self).queue@.drop_first()),
            old(self).queue@.len() == 0 ==> final(self).queue@ == old(self).queue@ && (if old(self).senders_live {
                r matches PollOutcome::TimedOut
            } else {
                r matches PollOutcome::Disconnected
            }),
    {
        if self.queue.len() > 0 {
            let t = self.queue.remove(0);
            proof {
                assert(old(self).queue@.remove(0) =~= old(self).queue@.drop_first());
            }
            PollOutcome::Delivered(t)
        } else if self.senders_live {
            PollOutcome::TimedOut
        } else {
            PollOutcome::Disconnected
        }
    }
}

/// Model of one adapter over the model channel: the same transition
/// table as the real adapter, driven without blocking.
pub struct ModelAdapter<T> {
    pub channel: ModelChannel<T>,
    /// The model's view of the shared cancellation signal.
    pub cancelled: bool,
    pub state: AdapterState,
}

impl<T> ModelAdapter<T> {
    /// An Active adapter over the given channel.
    pub fn new(channel: ModelChannel<T>) -> (r: ModelAdapter<T>)
        ensures
            r.channel == channel,
            !r.cancelled,
            r.state == AdapterState::Active,
    {
        ModelAdapter { channel, cancelled: false, state: AdapterState::Active }
    }

    /// Trigger the cancellation signal; it never resets.
    pub fn cancel(&mut self)
        ensures
            final(self).cancelled,
            final(self).channel == old(self).channel,
            final(self).state == old(self).state,
    {
        self.cancelled = true;
    }

    /// Pull the next item. The model never waits, so pulling is only
    /// allowed in the situations where the real adapter would answer
    /// within one poll interval: after termination, after
    /// cancellation, with something queued, or with the senders gone.
    pub fn next(&mut self) -> (r: Option<T>)
        requires
            old(self).state == AdapterState::Terminated || old(self).cancelled || old(self).channel.queue@.len() > 0 || !old(self).channel.senders_live,
        ensures
            final(self).cancelled == old(self).cancelled,
            final(self).channel.capacity == old(self).channel.capacity,
            final(self).channel.senders_live == old(self).channel.senders_live,
            old(self).state == AdapterState::Terminated ==> r is None && *final(self) == *old(self),
            old(self).state == AdapterState::Active && old(self).cancelled ==> r is None && final(self).state == AdapterState::Terminated && final(self).channel.queue@ == old(self).channel.queue@,
            old(self).state == AdapterState::Active && !old(self).cancelled && old(self).channel.queue@.len() > 0 ==> (r matches Some(t) && t == old(self).channel.queue@[0]
                && final(self).state == AdapterState::Active && final(self).channel.queue@ == old(self).channel.queue@.drop_first()),
            old(self).state == AdapterState::Active && !old(self).cancelled && old(self).channel.queue@.len() == 0 ==> r is None && final(self).state
                == AdapterState::Terminated && final(self).channel.queue@ == old(self).channel.queue@,
    {
        if matches!(self.state, AdapterState::Terminated) {
            return None;
        }
        if self.cancelled {
            self.state = AdapterState::Terminated;
            return None;
        }
        let outcome = self.channel.poll();
        let (next_state, action) = step(false, outcome);
        self.state = next_state;
        match action {
            StepResult::Emit(t) => Some(t),
            StepResult::KeepPolling => None,
            StepResult::Stop => None,
        }
    }
}

/// A consumer that begins pulling after cancellation was triggered
/// observes no event at all, regardless of events still queued, and
/// only termination: pulling any number of times yields nothing.
pub fn observe_after_cancel<T>(m: &mut ModelAdapter<T>, attempts: usize) -> (observed: Vec<T>)
    requires
        old(m).cancelled,
    ensures
        observed@.len() == 0,
        attempts > 0 ==> final(m).state == AdapterState::Terminated,
        final(m).channel.queue@ == old(m).channel.queue@,
{
    let mut observed: Vec<T> = Vec::new();
    let mut i: usize = 0;
    while i < attempts
        invariant
            m.cancelled,
            observed@.len() == 0,
            m.channel.queue@ == old(m).channel.queue@,
            i > 0 ==> m.state == AdapterState::Terminated,
            i <= attempts,
        decreases attempts - i,
    {
        let r = m.next();
        match r {
            Some(t) => {
                proof {
                    assert(false);
                }
                observed.push(t);
            },
            None => {
            },
        }
        i = i + 1;
    }
    observed
}

/// A consumer that keeps pulling after every sender is gone observes
/// exactly the events already queued, in the order they were
/// enqueued, and then termination: no blocking, no loss within the
/// queue, and nothing after termination.
pub fn observe_after_disconnect<T>(m: &mut ModelAdapter<T>) -> (observed: Vec<T>)
    requires
        !old(m).cancelled,
        !old(m).channel.senders_live,
        old(m).state == AdapterState::Active,
    ensures
        observed@ == old(m).channel.queue@,
        final(m).state == AdapterState::Terminated,
        final(m).channel.queue@.len() == 0,
{
    let mut observed: Vec<T> = Vec::new();
    while m.channel.queue.len() > 0
        invariant
            !m.cancelled,
            !m.channel.senders_live,
            m.state == AdapterState::Active,
            observed@ + m.channel.queue@ == old(m).channel.queue@,
        decreases m.channel.queue@.len(),
    {
        let r = m.next();
        match r {
            Some(t) => {
                observed.push(t);
            },
            None => {
                proof {
                    assert(false);
                }
            },
        }
        proof {
            assert(observed@ + m.channel.queue@ =~= old(m).channel.queue@);
        }
    }
    let last = m.next();
    proof {
        assert(last is None);
        assert(observed@ + m.channel.queue@ =~= observed@);
    }
    observed
}

} // verus!
