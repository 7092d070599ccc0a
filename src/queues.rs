//! The two queues a connection's worker shares with the consumer. The outbound
//! queue also carries the shutdown signal: once it is closed it accepts no
//! more text and hands none out, so nothing is written after the signal.
use vstd::prelude::*;

use std::collections::VecDeque;

use crate::protocol::ServerEvent;

verus! {

/// Refusal of a text that will not be written: sent after the connection
/// was shut down, or still queued when it was.
#[derive(Clone, Copy, Debug, PartialEq, Eq, Structural)]
pub enum SendError {
    Disconnected,
}

/// What the outbound queue holds: the texts still to write, oldest first, and
/// whether the queue is closed.
pub struct OutboxView {
    pub pending: Seq<String>,
    pub closed: bool,
}

/// An operation on the outbound queue.
pub enum OutboxOp {
    /// The consumer queues a text.
    Send(String),
    /// The worker takes the oldest text to write it.
    Take,
    /// The consumer requests shutdown and takes back what is still queued.
    Close,
    /// The worker, having stopped, closes the queue to further texts.
    Shut,
}

/// The queue after one operation.
pub open spec fn after_op(o: OutboxView, op: OutboxOp) -> OutboxView {
    match op {
        OutboxOp::Send(text) => if o.closed {
            o
        } else {
            OutboxView { pending: o.pending.push(text), closed: false }
        },
        OutboxOp::Take => if !o.closed && o.pending.len() > 0 {
            OutboxView { pending: o.pending.drop_first(), closed: false }
        } else {
            o
        },
        OutboxOp::Close => OutboxView { pending: Seq::empty(), closed: true },
        OutboxOp::Shut => OutboxView { pending: o.pending, closed: true },
    }
}

/// The text that one operation hands to the worker for writing.
pub open spec fn taken_by(o: OutboxView, op: OutboxOp) -> Option<String> {
    match op {
        OutboxOp::Take => if !o.closed && o.pending.len() > 0 {
            Some(o.pending[0])
        } else {
            None
        },
        _ => None,
    }
}

/// Runs a sequence of operations: the final queue, and the texts handed out
/// for writing, in the order they were handed out.
pub open spec fn run_ops(o: OutboxView, ops: Seq<OutboxOp>) -> (OutboxView, Seq<String>)
    decreases ops.len(),
{
    if ops.len() == 0 {
        (o, Seq::empty())
    } else {
        let head = match taken_by(o, ops[0]) {
            Some(t) => seq![t],
            None => Seq::empty(),
        };
        let rest = run_ops(after_op(o, ops[0]), ops.drop_first());
        (rest.0, head + rest.1)
    }
}

/// Once the queue is closed, whatever is sent, taken, closed or shut
/// afterwards, it stays closed and hands no text out for writing: nothing
/// queued after the shutdown signal, nor still queued at it, is ever written.
pub proof fn lemma_closed_queue_hands_out_nothing(o: OutboxView, ops: Seq<OutboxOp>)
    requires
        o.closed,
    ensures
        run_ops(o, ops).0.closed,
        run_ops(o, ops).1 == Seq::<String>::empty(),
    decreases ops.len(),
{
    if ops.len() > 0 {
        lemma_closed_queue_hands_out_nothing(after_op(o, ops[0]), ops.drop_first());
        assert(run_ops(o, ops).1 =~= Seq::<String>::empty());
    }
}

/// While the queue is open, the texts handed out are the oldest queued ones,
/// in the order they were sent.
pub proof fn lemma_open_queue_is_fifo(o: OutboxView, texts: Seq<String>)
    requires
        !o.closed,
    ensures
        ({
            let sends = texts.map_values(|t: String| OutboxOp::Send(t));
            let takes = Seq::new(o.pending.len() + texts.len(), |i: int| OutboxOp::Take);
            let r = run_ops(o, sends + takes);
            &&& r.1 == o.pending + texts
            &&& r.0.pending.len() == 0
            &&& !r.0.closed
        }),
{
    let sends = texts.map_values(|t: String| OutboxOp::Send(t));
    let takes = Seq::new(o.pending.len() + texts.len(), |i: int| OutboxOp::Take);
    lemma_sends_queue(o, texts);
    let mid = OutboxView { pending: o.pending + texts, closed: false };
    lemma_takes_drain(mid, (o.pending.len() + texts.len()) as nat);
    lemma_run_concat(o, sends, takes);
    assert(Seq::<String>::empty() + (o.pending + texts) =~= o.pending + texts);
}

proof fn lemma_sends_queue(o: OutboxView, texts: Seq<String>)
    requires
        !o.closed,
    ensures
        run_ops(o, texts.map_values(|t: String| OutboxOp::Send(t))) == (
            OutboxView { pending: o.pending + texts, closed: false },
            Seq::<String>::empty(),
        ),
    decreases texts.len(),
{
    let sends = texts.map_values(|t: String| OutboxOp::Send(t));
    if texts.len() == 0 {
        assert(o.pending + texts =~= o.pending);
    } else {
        let o2 = OutboxView { pending: o.pending.push(texts[0]), closed: false };
        lemma_sends_queue(o2, texts.drop_first());
        assert(sends.drop_first() =~= texts.drop_first().map_values(
            |t: String| OutboxOp::Send(t),
        ));
        assert(o2.pending + texts.drop_first() =~= o.pending + texts);
        assert(Seq::<String>::empty() + Seq::<String>::empty() =~= Seq::<String>::empty());
    }
}

proof fn lemma_takes_drain(o: OutboxView, n: nat)
    requires
        !o.closed,
        o.pending.len() == n,
    ensures
        run_ops(o, Seq::new(n, |i: int| OutboxOp::Take)) == (
            OutboxView { pending: Seq::<String>::empty(), closed: false },
            o.pending,
        ),
    decreases n,
{
    let takes = Seq::new(n, |i: int| OutboxOp::Take);
    if n == 0 {
        assert(o.pending =~= Seq::<String>::empty());
    } else {
        let o2 = OutboxView { pending: o.pending.drop_first(), closed: false };
        lemma_takes_drain(o2, (n - 1) as nat);
        assert(takes.drop_first() =~= Seq::new((n - 1) as nat, |i: int| OutboxOp::Take));
        assert(seq![o.pending[0]] + o.pending.drop_first() =~= o.pending);
    }
}

proof fn lemma_run_concat(o: OutboxView, a: Seq<OutboxOp>, b: Seq<OutboxOp>)
    ensures
        run_ops(o, a + b) == (
            run_ops(run_ops(o, a).0, b).0,
            run_ops(o, a).1 + run_ops(run_ops(o, a).0, b).1,
        ),
    decreases a.len(),
{
    if a.len() == 0 {
        assert(a + b =~= b);
        assert(Seq::<String>::empty() + run_ops(o, b).1 =~= run_ops(o, b).1);
    } else {
        lemma_run_concat(after_op(o, a[0]), a.drop_first(), b);
        assert((a + b).drop_first() =~= a.drop_first() + b);
        assert((a + b)[0] == a[0]);
        let head = match taken_by(o, a[0]) {
            Some(t) => seq![t],
            None => Seq::<String>::empty(),
        };
        let r1 = run_ops(after_op(o, a[0]), a.drop_first());
        let r2 = run_ops(r1.0, b);
        assert(head + (r1.1 + r2.1) =~= (head + r1.1) + r2.1);
    }
}

/// The outbound queue of a connection.
pub struct Outbox {
    pending: VecDeque<String>,
    closed: bool,
}

impl View for Outbox {
    type V = OutboxView;

    closed spec fn view(&self) -> OutboxView {
        OutboxView { pending: self.pending@, closed: self.closed }
    }
}

impl Outbox {
    /// An open, empty queue.
    pub fn new() -> (r: Outbox)
        ensures
            r@.pending.len() == 0,
            !r@.closed,
    {
        Outbox { pending: VecDeque::new(), closed: false }
    }

    /// Queues `text` behind the texts already waiting; refused once the queue
    /// is closed, the queue then being left as it was.
    pub fn send(&mut self, text: String) -> (r: Result<(), SendError>)
        ensures
            final(self)@ == after_op(old(self)@, OutboxOp::Send(text)),
            r is Err <==> old(self)@.closed,
    {
        if self.closed {
            Err(SendError::Disconnected)
        } else {
            self.pending.push_back(text);
            Ok(())
        }
    }

    /// Requests shutdown: the queue closes, and the texts not yet taken by
    /// the worker are handed back, oldest first; they will not be written.
    pub fn close(&mut self) -> (r: Vec<String>)
        ensures
            final(self)@ == after_op(old(self)@, OutboxOp::Close),
            r@ == old(self)@.pending,
    {
        self.closed = true;
        let mut unsent: Vec<String> = Vec::new();
        while self.pending.len() > 0
            invariant
                unsent@ + self.pending@ == old(self)@.pending,
                self.closed,
            decreases self.pending@.len(),
        {
            match self.pending.pop_front() {
                Some(text) => {
                    proof {
                        assert(unsent@.push(text) + self.pending@ =~= unsent@ + (seq![text]
                            + self.pending@));
                    }
                    unsent.push(text);
                },
                None => {},
            }
        }
        proof {
            assert(unsent@ + self.pending@ =~= unsent@);
            assert(self@.pending =~= Seq::<String>::empty());
        }
        unsent
    }

    /// Closes the queue to further texts, keeping those still queued for the
    /// consumer to take back with `close`.
    pub fn shut(&mut self)
        ensures
            final(self)@ == after_op(old(self)@, OutboxOp::Shut),
    {
        self.closed = true;
    }

    /// Hands out the oldest queued text, if the queue is open and not empty.
    pub fn take(&mut self) -> (r: Option<String>)
        ensures
            final(self)@ == after_op(old(self)@, OutboxOp::Take),
            r == taken_by(old(self)@, OutboxOp::Take),
    {
        if self.closed {
            return None;
        }
        let r = self.pending.pop_front();
        proof {
            if old(self)@.pending.len() > 0 {
                assert(self@.pending =~= old(self)@.pending.drop_first());
            }
        }
        r
    }

    /// Whether the queue is closed.
    pub fn is_closed(&self) -> (r: bool)
        ensures
            r == self@.closed,
    {
        self.closed
    }

    /// The number of texts waiting.
    pub fn len(&self) -> (r: usize)
        ensures
            r == self@.pending.len(),
    {
        self.pending.len()
    }
}

/// The inbound queue of a connection: events in arrival order.
pub struct Inbox {
    events: VecDeque<ServerEvent>,
}

impl View for Inbox {
    type V = Seq<ServerEvent>;

    closed spec fn view(&self) -> Seq<ServerEvent> {
        self.events@
    }
}

impl Inbox {
    /// An empty queue.
    pub fn new() -> (r: Inbox)
        ensures
            r@.len() == 0,
    {
        Inbox { events: VecDeque::new() }
    }

    /// Adds an event behind those already waiting.
    pub fn push(&mut self, event: ServerEvent)
        ensures
            final(self)@ == old(self)@.push(event),
    {
        self.events.push_back(event);
    }

    /// The oldest waiting event, if any, removed from the queue.
    pub fn poll(&mut self) -> (r: Option<ServerEvent>)
        ensures
            old(self)@.len() == 0 ==> r is None && final(self)@ == old(self)@,
            old(self)@.len() > 0 ==> r == Some(old(self)@[0]) && final(self)@
                == old(self)@.drop_first(),
    {
        let r = self.events.pop_front();
        proof {
            if old(self)@.len() > 0 {
                assert(self@ =~= old(self)@.drop_first());
            }
        }
        r
    }

    /// The number of waiting events.
    pub fn len(&self) -> (r: usize)
        ensures
            r == self@.len(),
    {
        self.events.len()
    }
}

} // verus!
