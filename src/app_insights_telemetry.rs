use crate::events_queue::EventsQueue;
use crate::telemetry_event::TelemetryEvent;
use crate::telemetry_writer::WriterMode;
use std::time::Duration;
use vstd::prelude::*;

verus! {

/// What starting the telemetry subsystem resolved to.
#[derive(Debug, PartialEq, Eq)]
pub enum StartDecision {
    /// Construct the sink with this instrumentation key, tag it with this role
    /// name, and run the publisher loop.
    Publish { app_insights_key: String, role_name: String },
    /// Nothing is configured, or the configuration was already consumed by an
    /// earlier start: only wait for shutdown.
    Idle,
}

impl StartDecision {
    /// The publisher loop's mode for this decision.
    pub fn writer_mode(&self) -> (r: WriterMode)
        ensures
            r == (if self is Publish { WriterMode::Running } else { WriterMode::Disabled }),
    {
        match self {
            StartDecision::Publish { .. } => WriterMode::Running,
            StartDecision::Idle => WriterMode::Disabled,
        }
    }
}

/// The abstract state of the telemetry subsystem: the buffered events, the
/// backend configuration not yet consumed, and the role name of this process.
pub ghost struct TelemetryState {
    pub queued: Seq<TelemetryEvent>,
    pub pending_key: Option<String>,
    pub role_name: String,
}

/// Resolves the configuration exactly once: the key is taken out, so that only
/// the first start can ask for a sink.
pub open spec fn start_spec(s: TelemetryState) -> (TelemetryState, StartDecision) {
    (
        TelemetryState { pending_key: None, ..s },
        match s.pending_key {
            Some(k) => StartDecision::Publish { app_insights_key: k, role_name: s.role_name },
            None => StartDecision::Idle,
        },
    )
}

/// Starting twice asks for at most one sink and one running loop: the first
/// start publishes exactly when a key is configured, the second always idles
/// and changes nothing, and no buffered event is touched.
pub proof fn law_start_resolves_once(s: TelemetryState)
    ensures
        start_spec(s).1 is Publish <==> s.pending_key is Some,
        start_spec(start_spec(s).0).1 == StartDecision::Idle,
        start_spec(start_spec(s).0).0 == start_spec(s).0,
        start_spec(start_spec(s).0).0.queued == s.queued,
{
}

/// The recorder and lifecycle controller. Recording is always accepted: events
/// are buffered whether or not a backend is configured and whether or not the
/// subsystem has been started.
pub struct AppInsightsTelemetry {
    events: EventsQueue,
    app_insights_key: Option<String>,
    role_name: String,
}

impl View for AppInsightsTelemetry {
    type V = TelemetryState;

    closed spec fn view(&self) -> TelemetryState {
        TelemetryState {
            queued: self.events@,
            pending_key: self.app_insights_key,
            role_name: self.role_name,
        }
    }
}

impl AppInsightsTelemetry {
    /// A subsystem with nothing buffered, for the process named `role_name`;
    /// `app_insights_key` is the backend configuration, if any.
    pub fn new(role_name: String, app_insights_key: Option<String>) -> (r: Self)
        ensures
            r@ == (TelemetryState {
                queued: Seq::empty(),
                pending_key: app_insights_key,
                role_name,
            }),
    {
        AppInsightsTelemetry { events: EventsQueue::new(), app_insights_key, role_name }
    }

    /// Records one inbound request.
    pub fn write_http_request_duration(
        &mut self,
        url: hyper::Uri,
        method: hyper::Method,
        status_code: u16,
        duration: Duration,
    )
        ensures
            final(self)@ == (TelemetryState {
                queued: old(self)@.queued.push(
                    TelemetryEvent::HttpServerEvent { url, status_code, duration, method },
                ),
                ..old(self)@
            }),
    {
        let event = TelemetryEvent::HttpServerEvent { url, status_code, duration, method };
        self.events.enqueue(event);
    }

    /// Records one outbound dependency call.
    pub fn write_dependency_request_duration(
        &mut self,
        name: String,
        dependency_type: String,
        target: String,
        success: bool,
        duration: Duration,
    )
        ensures
            final(self)@ == (TelemetryState {
                queued: old(self)@.queued.push(
                    TelemetryEvent::HttpDependencyEvent {
                        name,
                        dependency_type,
                        target,
                        success,
                        duration,
                    },
                ),
                ..old(self)@
            }),
    {
        let event = TelemetryEvent::HttpDependencyEvent {
            name,
            dependency_type,
            target,
            success,
            duration,
        };
        self.events.enqueue(event);
    }

    /// Takes every buffered event in recording order, leaving none; `None` when
    /// nothing was buffered.
    pub fn dequeue(&mut self) -> (r: Option<Vec<TelemetryEvent>>)
        ensures
            final(self)@ == (TelemetryState { queued: Seq::empty(), ..old(self)@ }),
            r is None <==> old(self)@.queued.len() == 0,
            r is Some ==> r->0@ == old(self)@.queued,
    {
        self.events.dequeue()
    }

    /// Resolves the configuration, consuming it: the first start with a key
    /// configured asks for the sink and the running loop, every other start idles.
    pub fn start(&mut self) -> (r: StartDecision)
        ensures
            (final(self)@, r) == start_spec(old(self)@),
    {
        match self.app_insights_key.take() {
            Some(app_insights_key) => {
                StartDecision::Publish { app_insights_key, role_name: self.role_name.clone() }
            },
            None => StartDecision::Idle,
        }
    }
}

} // verus!
