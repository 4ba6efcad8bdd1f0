use crate::telemetry_event::TelemetryEvent;
use vstd::prelude::*;

verus! {

/// One operation on an [`EventsQueue`]: a producer's append or the publisher's drain.
pub enum QueueOp {
    Enqueue(TelemetryEvent),
    Drain,
}

/// What the queue holds after `op`, and the batch that `op` hands out, if any.
/// A drain takes everything at once and leaves the queue empty; it hands out
/// nothing when nothing was buffered.
pub open spec fn apply_op(q: Seq<TelemetryEvent>, op: QueueOp) -> (Seq<TelemetryEvent>, Option<
    Seq<TelemetryEvent>,
>) {
    match op {
        QueueOp::Enqueue(e) => (q.push(e), None),
        QueueOp::Drain => (Seq::empty(), if q.len() == 0 { None } else { Some(q) }),
    }
}

/// The events of a batch, none for no batch.
pub open spec fn batch_events(b: Option<Seq<TelemetryEvent>>) -> Seq<TelemetryEvent> {
    match b {
        Some(s) => s,
        None => Seq::empty(),
    }
}

/// Runs `ops` in order from contents `q`: what is left in the queue, and every
/// event handed out by the drains, batch after batch.
pub open spec fn run_ops(q: Seq<TelemetryEvent>, ops: Seq<QueueOp>) -> (Seq<TelemetryEvent>, Seq<
    TelemetryEvent,
>)
    decreases ops.len(),
{
    if ops.len() == 0 {
        (q, Seq::empty())
    } else {
        let (q1, out) = apply_op(q, ops[0]);
        let (left, rest_out) = run_ops(q1, ops.skip(1));
        (left, batch_events(out) + rest_out)
    }
}

/// The events that `ops` appends, in order.
pub open spec fn enqueued(ops: Seq<QueueOp>) -> Seq<TelemetryEvent>
    decreases ops.len(),
{
    if ops.len() == 0 {
        Seq::empty()
    } else {
        let rest = enqueued(ops.skip(1));
        match ops[0] {
            QueueOp::Enqueue(e) => seq![e] + rest,
            QueueOp::Drain => rest,
        }
    }
}

/// Appends `events` one by one to contents `q`.
pub open spec fn enqueue_all(q: Seq<TelemetryEvent>, events: Seq<TelemetryEvent>) -> Seq<
    TelemetryEvent,
>
    decreases events.len(),
{
    if events.len() == 0 {
        q
    } else {
        enqueue_all(apply_op(q, QueueOp::Enqueue(events[0])).0, events.skip(1))
    }
}

/// Appending events one by one puts them after what is already buffered, in
/// call order.
pub proof fn lemma_enqueue_all_appends(q: Seq<TelemetryEvent>, events: Seq<TelemetryEvent>)
    ensures
        enqueue_all(q, events) == q + events,
    decreases events.len(),
{
    if events.len() == 0 {
        assert(q + events =~= q);
    } else {
        lemma_enqueue_all_appends(q.push(events[0]), events.skip(1));
        assert(q.push(events[0]) + events.skip(1) =~= q + events);
    }
}

/// After N appends to an empty queue, a drain hands out exactly those N events
/// in call order (nothing when N is zero), and a second drain right after it
/// hands out nothing.
pub proof fn law_drain_after_enqueues(events: Seq<TelemetryEvent>)
    ensures
        ({
            let q = enqueue_all(Seq::empty(), events);
            let (q1, first) = apply_op(q, QueueOp::Drain);
            let (q2, second) = apply_op(q1, QueueOp::Drain);
            &&& first == (if events.len() == 0 { None } else { Some(events) })
            &&& second is None
            &&& q2 == Seq::<TelemetryEvent>::empty()
        }),
{
    lemma_enqueue_all_appends(Seq::empty(), events);
    assert(Seq::<TelemetryEvent>::empty() + events =~= events);
}

/// However appends and drains interleave, each appended event is handed out by
/// exactly one drain or is still buffered: no event is lost or duplicated, and
/// the drains hand events out in the order they were appended.
pub proof fn law_no_event_lost_or_duplicated(q: Seq<TelemetryEvent>, ops: Seq<QueueOp>)
    ensures
        run_ops(q, ops).1 + run_ops(q, ops).0 == q + enqueued(ops),
    decreases ops.len(),
{
    if ops.len() == 0 {
        assert(Seq::<TelemetryEvent>::empty() + q =~= q + enqueued(ops));
    } else {
        let rest = ops.skip(1);
        let (q1, out) = apply_op(q, ops[0]);
        law_no_event_lost_or_duplicated(q1, rest);
        let (left, rest_out) = run_ops(q1, rest);
        assert(batch_events(out) + rest_out + left =~= batch_events(out) + (rest_out + left));
        match ops[0] {
            QueueOp::Enqueue(e) => {
                assert(q1 + enqueued(rest) =~= q + enqueued(ops));
                assert(batch_events(out) + (rest_out + left) =~= q1 + enqueued(rest));
            },
            QueueOp::Drain => {
                assert(q1 + enqueued(rest) =~= enqueued(rest));
                assert(batch_events(out) + (rest_out + left) =~= q + enqueued(ops));
            },
        }
    }
}

/// An unbounded, insertion-ordered buffer of events between the producers and
/// the single publisher. Producers only append; the publisher only takes the
/// whole contents at once.
pub struct EventsQueue {
    events: Vec<TelemetryEvent>,
}

impl View for EventsQueue {
    type V = Seq<TelemetryEvent>;

    closed spec fn view(&self) -> Seq<TelemetryEvent> {
        self.events@
    }
}

impl EventsQueue {
    pub fn new() -> (r: Self)
        ensures
            r@ == Seq::<TelemetryEvent>::empty(),
    {
        EventsQueue { events: Vec::new() }
    }

    /// Appends `event` at the tail. Never fails.
    pub fn enqueue(&mut self, event: TelemetryEvent)
        ensures
            final(self)@ == old(self)@.push(event),
            final(self)@ == apply_op(old(self)@, QueueOp::Enqueue(event)).0,
    {
        self.events.push(event);
    }

    /// Takes every buffered event, in insertion order, and leaves the queue
    /// empty; `None` when nothing was buffered.
    pub fn dequeue(&mut self) -> (r: Option<Vec<TelemetryEvent>>)
        ensures
            final(self)@ == Seq::<TelemetryEvent>::empty(),
            r is None <==> old(self)@.len() == 0,
            r is Some ==> r->0@ == old(self)@,
            (final(self)@, match r {
                Some(v) => Some(v@),
                None => None,
            }) == apply_op(old(self)@, QueueOp::Drain),
    {
        if self.events.len() == 0 {
            return None;
        }
        let mut result = Vec::new();
        std::mem::swap(&mut result, &mut self.events);
        Some(result)
    }
}

} // verus!
