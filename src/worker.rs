//! The decisions of a connection's worker, which alone owns the socket. The
//! driver performs each action (write, read, sleep) and hands back what it
//! observed; the worker says what to deliver to the consumer, whether to wake
//! it, and what to do next. It stops at the first look at the outbound queue
//! that finds shutdown requested, and whenever it stops it closes that queue.
use vstd::prelude::*;

use crate::protocol::ServerEvent;
use crate::queues::{after_op, taken_by, Outbox, OutboxOp, OutboxView};

verus! {

/// How a non-blocking read ended.
#[derive(Clone, Debug, PartialEq, Eq)]
pub enum ReadOutcome {
    /// One frame arrived; it carries the event it decodes to.
    Received(ServerEvent),
    /// Nothing to read yet; not an error.
    WouldBlock,
    /// Any other failure of the read.
    Failed(String),
}

/// What the driver observed after the last action.
#[derive(Clone, Debug, PartialEq, Eq)]
pub enum Observation {
    /// A look at the outbound queue: whether shutdown was requested, and the
    /// oldest text taken from it, if any.
    Queue { shutdown: bool, next: Option<String> },
    /// Writing a text succeeded.
    Written,
    /// Writing a text failed.
    WriteFailed(String),
    /// The result of a read.
    Read(ReadOutcome),
}

/// What the driver does next.
#[derive(Clone, Debug, PartialEq, Eq)]
pub enum Next {
    /// Write this text to the socket, then report `Written` or `WriteFailed`.
    Write(String),
    /// Try one read, then report `Read`.
    Read,
    /// Sleep the fixed interval, then look at the outbound queue.
    Sleep,
    /// Close the socket and end the worker.
    Stop,
}

/// One decision: an event to deliver to the inbound queue, whether to wake
/// the consumer, and the next action.
#[derive(Clone, Debug, PartialEq, Eq)]
pub struct Step {
    pub emit: Option<ServerEvent>,
    pub notify: bool,
    pub next: Next,
}

/// The worker's state: whether it has stopped, and the phase of its wake-up
/// throttle.
pub struct WorkerView {
    pub stopped: bool,
    pub odd_tick: bool,
}

/// The decision for an observation, and the state after it.
pub open spec fn transition(w: WorkerView, obs: Observation) -> (WorkerView, Step) {
    let stop = WorkerView { stopped: true, odd_tick: w.odd_tick };
    let ticked = WorkerView { stopped: false, odd_tick: !w.odd_tick };
    if w.stopped {
        (w, Step { emit: None, notify: false, next: Next::Stop })
    } else {
        match obs {
            Observation::Queue { shutdown, next } => if shutdown {
                (stop, Step { emit: None, notify: false, next: Next::Stop })
            } else {
                match next {
                    Some(text) => (w, Step { emit: None, notify: false, next: Next::Write(text) }),
                    None => (w, Step { emit: None, notify: false, next: Next::Read }),
                }
            },
            Observation::Written => (w, Step { emit: None, notify: false, next: Next::Read }),
            Observation::WriteFailed(e) => (
                stop,
                Step { emit: Some(ServerEvent::TransportError(e)), notify: true, next: Next::Stop },
            ),
            Observation::Read(ReadOutcome::Received(event)) => (
                ticked,
                Step { emit: Some(event), notify: true, next: Next::Sleep },
            ),
            Observation::Read(ReadOutcome::WouldBlock) => (
                ticked,
                Step { emit: None, notify: w.odd_tick, next: Next::Sleep },
            ),
            Observation::Read(ReadOutcome::Failed(e)) => (
                stop,
                Step { emit: Some(ServerEvent::TransportError(e)), notify: true, next: Next::Stop },
            ),
        }
    }
}

/// What a look at the outbound queue observes: whether it is closed, and the
/// text taken from it.
pub open spec fn queue_observation(o: OutboxView) -> Observation {
    Observation::Queue { shutdown: o.closed, next: taken_by(o, OutboxOp::Take) }
}

/// The outbound queue after the worker's look at it, closed if the worker
/// stopped.
pub open spec fn queue_after(o: OutboxView, step: Step) -> OutboxView {
    if step.next is Stop {
        after_op(o, OutboxOp::Shut)
    } else {
        o
    }
}

/// The events delivered over a sequence of observations, in order.
pub open spec fn emitted(w: WorkerView, obs: Seq<Observation>) -> Seq<ServerEvent>
    decreases obs.len(),
{
    if obs.len() == 0 {
        Seq::empty()
    } else {
        let (w2, step) = transition(w, obs[0]);
        let head = match step.emit {
            Some(e) => seq![e],
            None => Seq::empty(),
        };
        head + emitted(w2, obs.drop_first())
    }
}

/// The texts written over a sequence of observations, in order.
pub open spec fn written(w: WorkerView, obs: Seq<Observation>) -> Seq<String>
    decreases obs.len(),
{
    if obs.len() == 0 {
        Seq::empty()
    } else {
        let (w2, step) = transition(w, obs[0]);
        let head = match step.next {
            Next::Write(t) => seq![t],
            _ => Seq::empty(),
        };
        head + written(w2, obs.drop_first())
    }
}

/// A stopped worker delivers nothing and writes nothing, whatever it observes.
pub proof fn lemma_stopped_is_silent(w: WorkerView, obs: Seq<Observation>)
    requires
        w.stopped,
    ensures
        emitted(w, obs) == Seq::<ServerEvent>::empty(),
        written(w, obs) == Seq::<String>::empty(),
    decreases obs.len(),
{
    if obs.len() > 0 {
        lemma_stopped_is_silent(w, obs.drop_first());
        assert(emitted(w, obs) =~= Seq::<ServerEvent>::empty());
        assert(written(w, obs) =~= Seq::<String>::empty());
    }
}

/// A failed read of a running worker delivers exactly one transport error,
/// and after it nothing more is delivered or written, whatever follows.
pub proof fn lemma_read_failure_is_terminal(
    w: WorkerView,
    error: String,
    later: Seq<Observation>,
)
    requires
        !w.stopped,
    ensures
        emitted(w, seq![Observation::Read(ReadOutcome::Failed(error))] + later) == seq![
            ServerEvent::TransportError(error),
        ],
        written(w, seq![Observation::Read(ReadOutcome::Failed(error))] + later) == Seq::<
            String,
        >::empty(),
{
    let obs = seq![Observation::Read(ReadOutcome::Failed(error))] + later;
    let (w2, _) = transition(w, obs[0]);
    assert(obs.drop_first() =~= later);
    lemma_stopped_is_silent(w2, later);
    assert(emitted(w, obs) =~= seq![ServerEvent::TransportError(error)]);
    assert(written(w, obs) =~= Seq::<String>::empty());
}

/// The first look at the outbound queue that finds shutdown requested stops
/// the worker: that look writes nothing, not even a text taken in it, and
/// after it nothing more is delivered or written, whatever follows.
pub proof fn lemma_shutdown_stops_at_once(
    w: WorkerView,
    taken: Option<String>,
    later: Seq<Observation>,
)
    ensures
        transition(w, Observation::Queue { shutdown: true, next: taken }).1 == (Step {
            emit: None,
            notify: false,
            next: Next::Stop,
        }),
        transition(w, Observation::Queue { shutdown: true, next: taken }).0.stopped,
        emitted(w, seq![Observation::Queue { shutdown: true, next: taken }] + later) == Seq::<
            ServerEvent,
        >::empty(),
        written(w, seq![Observation::Queue { shutdown: true, next: taken }] + later) == Seq::<
            String,
        >::empty(),
{
    let obs = seq![Observation::Queue { shutdown: true, next: taken }] + later;
    let (w2, _) = transition(w, obs[0]);
    assert(obs.drop_first() =~= later);
    lemma_stopped_is_silent(w2, later);
    assert(emitted(w, obs) =~= Seq::<ServerEvent>::empty());
    assert(written(w, obs) =~= Seq::<String>::empty());
}

/// The worker of one connection.
pub struct Worker {
    stopped: bool,
    odd_tick: bool,
}

impl View for Worker {
    type V = WorkerView;

    closed spec fn view(&self) -> WorkerView {
        WorkerView { stopped: self.stopped, odd_tick: self.odd_tick }
    }
}

impl Worker {
    /// A running worker whose first action is to look at the outbound queue.
    pub fn new() -> (r: Worker)
        ensures
            !r@.stopped,
            !r@.odd_tick,
    {
        Worker { stopped: false, odd_tick: false }
    }

    /// Whether the worker has stopped.
    pub fn is_stopped(&self) -> (r: bool)
        ensures
            r == self@.stopped,
    {
        self.stopped
    }

    /// Decides what follows an observation.
    pub fn step(&mut self, obs: Observation) -> (r: Step)
        ensures
            (final(self)@, r) == transition(old(self)@, obs),
    {
        if self.stopped {
            return Step { emit: None, notify: false, next: Next::Stop };
        }
        match obs {
            Observation::Queue { shutdown, next } => if shutdown {
                self.stopped = true;
                Step { emit: None, notify: false, next: Next::Stop }
            } else {
                match next {
                    Some(text) => Step { emit: None, notify: false, next: Next::Write(text) },
                    None => Step { emit: None, notify: false, next: Next::Read },
                }
            },
            Observation::Written => Step { emit: None, notify: false, next: Next::Read },
            Observation::WriteFailed(e) => {
                self.stopped = true;
                Step { emit: Some(ServerEvent::TransportError(e)), notify: true, next: Next::Stop }
            },
            Observation::Read(ReadOutcome::Received(event)) => {
                self.odd_tick = !self.odd_tick;
                Step { emit: Some(event), notify: true, next: Next::Sleep }
            },
            Observation::Read(ReadOutcome::WouldBlock) => {
                let notify = self.odd_tick;
                self.odd_tick = !self.odd_tick;
                Step { emit: None, notify, next: Next::Sleep }
            },
            Observation::Read(ReadOutcome::Failed(e)) => {
                self.stopped = true;
                Step { emit: Some(ServerEvent::TransportError(e)), notify: true, next: Next::Stop }
            },
        }
    }

    /// Looks at the outbound queue and decides: stop if it is closed, else
    /// write the oldest text taken from it, or read if there is none. The
    /// queue is closed whenever the worker stops.
    pub fn check_queue(&mut self, outbox: &mut Outbox) -> (r: Step)
        ensures
            (final(self)@, r) == transition(old(self)@, queue_observation(old(outbox)@)),
            final(outbox)@ == queue_after(after_op(old(outbox)@, OutboxOp::Take), r),
            r.next is Stop ==> final(outbox)@.closed,
    {
        let shutdown = outbox.is_closed();
        let next = outbox.take();
        let r = self.step(Observation::Queue { shutdown, next });
        if matches!(r.next, Next::Stop) {
            outbox.shut();
        }
        r
    }

    /// Decides what follows the result of a write or a read. The queue is
    /// closed whenever the worker stops, so that later sends are refused.
    pub fn observe(&mut self, obs: Observation, outbox: &mut Outbox) -> (r: Step)
        ensures
            (final(self)@, r) == transition(old(self)@, obs),
            final(outbox)@ == queue_after(old(outbox)@, r),
            r.next is Stop ==> final(outbox)@.closed,
    {
        let r = self.step(obs);
        if matches!(r.next, Next::Stop) {
            outbox.shut();
        }
        r
    }
}

} // verus!
