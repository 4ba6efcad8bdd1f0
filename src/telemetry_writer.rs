use crate::events_queue::{enqueued, law_no_event_lost_or_duplicated, run_ops, QueueOp};
use crate::telemetry_event::TelemetryEvent;
use std::time::Duration;
use vstd::prelude::*;

verus! {

/// One hand-off to the telemetry sink: a request record for an inbound
/// request, a dependency record for an outbound call.
#[derive(Debug, PartialEq, Eq)]
pub enum SinkCall {
    TrackRequest { method: hyper::Method, url: hyper::Uri, duration: Duration, response_code: String },
    TrackDependency {
        name: String,
        dependency_type: String,
        duration: Duration,
        target: String,
        success: bool,
    },
}

/// The mode of the publisher loop once configuration has been resolved.
#[derive(Debug, Clone, Copy, PartialEq, Eq)]
pub enum WriterMode {
    /// A sink exists: the loop drains the queue and forwards what it takes.
    Running,
    /// No backend is configured: the loop only waits for shutdown.
    Disabled,
    /// Shutdown was observed; the loop has ended.
    Stopped,
}

/// What the publisher loop does next.
#[derive(Debug, Clone, Copy, PartialEq, Eq)]
pub enum LoopAction {
    /// Take the whole queue and forward it to the sink.
    Drain,
    /// Wait one poll interval.
    Sleep,
    /// Leave the loop.
    Stop,
}

/// The character of the decimal digit `d`.
pub open spec fn digit_char(d: nat) -> char {
    if d == 0 {
        '0'
    } else if d == 1 {
        '1'
    } else if d == 2 {
        '2'
    } else if d == 3 {
        '3'
    } else if d == 4 {
        '4'
    } else if d == 5 {
        '5'
    } else if d == 6 {
        '6'
    } else if d == 7 {
        '7'
    } else if d == 8 {
        '8'
    } else {
        '9'
    }
}

/// The decimal text of `n`, most significant digit first, without leading zeros.
pub open spec fn decimal(n: nat) -> Seq<char>
    decreases n,
{
    if n < 10 {
        seq![digit_char(n)]
    } else {
        decimal(n / 10).push(digit_char(n % 10))
    }
}

/// `c` is the sink call that forwards `e`: a request record with the status
/// code as decimal text, or a dependency record, with every field carried over.
pub open spec fn is_sink_call_for(c: SinkCall, e: TelemetryEvent) -> bool {
    match e {
        TelemetryEvent::HttpServerEvent { url, status_code, duration, method } => match c {
            SinkCall::TrackRequest { method: m, url: u, duration: d, response_code } => m == method
                && u == url && d == duration && response_code@ == decimal(status_code as nat),
            _ => false,
        },
        TelemetryEvent::HttpDependencyEvent { name, dependency_type, target, success, duration } =>
            match c {
            SinkCall::TrackDependency {
                name: n,
                dependency_type: t,
                duration: d,
                target: g,
                success: s,
            } => n == name && t == dependency_type && d == duration && g == target && s == success,
            _ => false,
        },
    }
}

/// `calls` forwards `events` one for one, in the same order.
pub open spec fn forwards_in_order(calls: Seq<SinkCall>, events: Seq<TelemetryEvent>) -> bool {
    &&& calls.len() == events.len()
    &&& forall|i: int| 0 <= i < events.len() ==> is_sink_call_for(#[trigger] calls[i], events[i])
}

/// One decision of the publisher loop, taken at the top of each iteration
/// after reading the shutdown flag.
pub open spec fn writer_step(mode: WriterMode, shutting_down: bool) -> (WriterMode, LoopAction) {
    if shutting_down {
        (WriterMode::Stopped, LoopAction::Stop)
    } else {
        match mode {
            WriterMode::Running => (WriterMode::Running, LoopAction::Drain),
            WriterMode::Disabled => (WriterMode::Disabled, LoopAction::Sleep),
            WriterMode::Stopped => (WriterMode::Stopped, LoopAction::Stop),
        }
    }
}

/// The actions of the loop from `mode` when it reads the shutdown flag as
/// `flags`, one iteration per reading.
pub open spec fn run_writer(mode: WriterMode, flags: Seq<bool>) -> Seq<LoopAction>
    decreases flags.len(),
{
    if flags.len() == 0 {
        Seq::empty()
    } else {
        let (next, action) = writer_step(mode, flags[0]);
        seq![action] + run_writer(next, flags.skip(1))
    }
}

/// Once shutdown has been read, every later iteration stops; a loop that does
/// not start out running never drains, so it makes no sink call at all.
pub proof fn law_shutdown_stops_and_idle_never_drains(mode: WriterMode, flags: Seq<bool>)
    ensures
        run_writer(mode, flags).len() == flags.len(),
        forall|i: int, j: int|
            0 <= i <= j < flags.len() && flags[i] ==> run_writer(mode, flags)[j] == LoopAction::Stop,
        mode != WriterMode::Running ==> forall|i: int|
            0 <= i < flags.len() ==> run_writer(mode, flags)[i] != LoopAction::Drain,
    decreases flags.len(),
{
    if flags.len() > 0 {
        let (next, action) = writer_step(mode, flags[0]);
        let rest = flags.skip(1);
        law_shutdown_stops_and_idle_never_drains(next, rest);
        let out = run_writer(mode, flags);
        assert(out == seq![action] + run_writer(next, rest));
        if flags[0] {
            law_stopped_stays_stopped(rest);
        }
        assert forall|i: int, j: int|
            0 <= i <= j < flags.len() && flags[i] implies out[j] == LoopAction::Stop by {
            if i > 0 {
                assert(rest[i - 1] == flags[i]);
                assert(out[j] == run_writer(next, rest)[j - 1]);
            } else if j > 0 {
                assert(out[j] == run_writer(next, rest)[j - 1]);
            }
        }
        if mode != WriterMode::Running {
            assert forall|i: int| 0 <= i < flags.len() implies out[i] != LoopAction::Drain by {
                if i > 0 {
                    assert(out[i] == run_writer(next, rest)[i - 1]);
                }
            }
        }
    }
}

/// A stopped loop only stops.
pub proof fn law_stopped_stays_stopped(flags: Seq<bool>)
    ensures
        run_writer(WriterMode::Stopped, flags).len() == flags.len(),
        forall|j: int|
            0 <= j < flags.len() ==> run_writer(WriterMode::Stopped, flags)[j] == LoopAction::Stop,
    decreases flags.len(),
{
    if flags.len() > 0 {
        law_stopped_stays_stopped(flags.skip(1));
        let out = run_writer(WriterMode::Stopped, flags);
        assert forall|j: int| 0 <= j < flags.len() implies out[j] == LoopAction::Stop by {
            if j > 0 {
                assert(out[j] == run_writer(WriterMode::Stopped, flags.skip(1))[j - 1]);
            }
        }
    }
}

/// However appends and drains interleave, forwarding the drained batches one
/// after the other hands the sink the events in the order they were appended.
pub proof fn law_sink_sees_append_order(
    q: Seq<TelemetryEvent>,
    ops: Seq<QueueOp>,
    calls: Seq<SinkCall>,
)
    requires
        forwards_in_order(calls, run_ops(q, ops).1),
    ensures
        calls.len() <= q.len() + enqueued(ops).len(),
        forall|i: int|
            0 <= i < calls.len() ==> is_sink_call_for(#[trigger] calls[i], (q + enqueued(ops))[i]),
{
    law_no_event_lost_or_duplicated(q, ops);
    let (left, out) = run_ops(q, ops);
    assert((out + left).len() == out.len() + left.len());
    assert forall|i: int| 0 <= i < calls.len() implies is_sink_call_for(
        #[trigger] calls[i],
        (q + enqueued(ops))[i],
    ) by {
        assert((out + left)[i] == out[i]);
    }
}

/// Decides the next iteration of the publisher loop: stop once shutdown is
/// read or after it, drain when running, sleep when disabled.
pub fn next_action(mode: WriterMode, shutting_down: bool) -> (r: (WriterMode, LoopAction))
    ensures
        r == writer_step(mode, shutting_down),
{
    if shutting_down {
        return (WriterMode::Stopped, LoopAction::Stop);
    }
    match mode {
        WriterMode::Running => (WriterMode::Running, LoopAction::Drain),
        WriterMode::Disabled => (WriterMode::Disabled, LoopAction::Sleep),
        WriterMode::Stopped => (WriterMode::Stopped, LoopAction::Stop),
    }
}

fn digit_str(d: u16) -> (r: &'static str)
    requires
        d < 10,
    ensures
        r@ == seq![digit_char(d as nat)],
{
    proof {
        reveal_strlit("0");
        reveal_strlit("1");
        reveal_strlit("2");
        reveal_strlit("3");
        reveal_strlit("4");
        reveal_strlit("5");
        reveal_strlit("6");
        reveal_strlit("7");
        reveal_strlit("8");
        reveal_strlit("9");
    }
    let r = match d {
        0 => "0",
        1 => "1",
        2 => "2",
        3 => "3",
        4 => "4",
        5 => "5",
        6 => "6",
        7 => "7",
        8 => "8",
        _ => "9",
    };
    assert(r@ =~= seq![digit_char(d as nat)]);
    r
}

fn append_decimal(out: &mut String, n: u16)
    ensures
        final(out)@ == old(out)@ + decimal(n as nat),
    decreases n,
{
    if n >= 10 {
        append_decimal(out, n / 10);
    }
    out.append(digit_str(n % 10));
    assert(decimal(n as nat) =~= if n < 10 {
        seq![digit_char(n as nat)]
    } else {
        decimal((n / 10) as nat) + seq![digit_char((n % 10) as nat)]
    });
    assert(final(out)@ =~= old(out)@ + decimal(n as nat));
}

/// The decimal text of an HTTP status code, as the request record carries it.
pub fn status_code_text(code: u16) -> (r: String)
    ensures
        r@ == decimal(code as nat),
{
    let mut s = String::new();
    append_decimal(&mut s, code);
    assert(s@ =~= decimal(code as nat));
    s
}

/// The sink call that forwards `event`.
pub fn sink_call(event: TelemetryEvent) -> (r: SinkCall)
    ensures
        is_sink_call_for(r, event),
{
    match event {
        TelemetryEvent::HttpServerEvent { url, status_code, duration, method } => {
            let response_code = status_code_text(status_code);
            SinkCall::TrackRequest { method, url, duration, response_code }
        },
        TelemetryEvent::HttpDependencyEvent { name, dependency_type, target, success, duration } => {
            SinkCall::TrackDependency { name, dependency_type, duration, target, success }
        },
    }
}

/// Turns the result of one drain into the sink calls to make, in the order the
/// events were recorded; `None` (nothing was buffered) means wait one interval.
pub fn write_batch(batch: Option<Vec<TelemetryEvent>>) -> (r: Option<Vec<SinkCall>>)
    ensures
        r is None <==> batch is None,
        r is Some ==> forwards_in_order(r->0@, batch->0@),
{
    match batch {
        None => None,
        Some(events) => Some(sink_calls(events)),
    }
}

/// The sink calls that forward `events`, one for one and in order.
pub fn sink_calls(events: Vec<TelemetryEvent>) -> (r: Vec<SinkCall>)
    ensures
        forwards_in_order(r@, events@),
{
    let ghost orig = events@;
    let n = events.len();
    let mut events = events;
    let mut rev: Vec<TelemetryEvent> = Vec::new();
    while events.len() > 0
        invariant
            events@.len() + rev@.len() == n,
            n == orig.len(),
            forall|i: int| 0 <= i < events@.len() ==> events@[i] == orig[i],
            forall|j: int| 0 <= j < rev@.len() ==> #[trigger] rev@[j] == orig[n - 1 - j],
        decreases events@.len(),
    {
        let e = events.pop().unwrap();
        rev.push(e);
    }
    let mut calls: Vec<SinkCall> = Vec::new();
    while rev.len() > 0
        invariant
            calls@.len() + rev@.len() == n,
            n == orig.len(),
            forall|j: int| 0 <= j < rev@.len() ==> #[trigger] rev@[j] == orig[n - 1 - j],
            forall|i: int| 0 <= i < calls@.len() ==> is_sink_call_for(#[trigger] calls@[i], orig[i]),
        decreases rev@.len(),
    {
        let ghost k = calls@.len();
        let e = rev.pop().unwrap();
        assert(e == orig[k as int]);
        calls.push(sink_call(e));
    }
    calls
}

} // verus!
