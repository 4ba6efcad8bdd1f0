use std::time::Duration;
use vstd::prelude::*;

verus! {

/// The request target of an inbound HTTP request, carried unread to the sink.
#[verifier::external_type_specification]
#[verifier::external_body]
pub struct ExUri(hyper::Uri);

/// The HTTP method of an inbound request, carried unread to the sink.
#[verifier::external_type_specification]
#[verifier::external_body]
pub struct ExMethod(hyper::Method);

/// One observed operation: an inbound HTTP request or an outbound dependency call.
/// Events are plain immutable values.
#[derive(Debug, PartialEq, Eq)]
pub enum TelemetryEvent {
    HttpServerEvent { url: hyper::Uri, status_code: u16, duration: Duration, method: hyper::Method },
    HttpDependencyEvent {
        name: String,
        dependency_type: String,
        target: String,
        success: bool,
        duration: Duration,
    },
}

} // verus!
