use crate::telemetry_event::TelemetryEvent;
use crate::telemetry_writer::{is_sink_call_for, sink_call, SinkCall};
use vstd::prelude::*;

verus! {

/// One step of the channel-fed publisher: each event received is forwarded,
/// unless the channel has closed (`received` is `None`) or shutdown has been
/// read, in which case the publisher stops and returns `None`.
pub fn next_call(shutting_down: bool, received: Option<TelemetryEvent>) -> (r: Option<SinkCall>)
    ensures
        r is None <==> (received is None || shutting_down),
        r is Some ==> is_sink_call_for(r->0, received->0),
{
    match received {
        None => None,
        Some(event) => {
            if shutting_down {
                None
            } else {
                Some(sink_call(event))
            }
        },
    }
}

} // verus!
