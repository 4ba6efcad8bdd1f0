use std::time::Duration;

use app_insights_telemetry::app_insights_telemetry::StartDecision;
use app_insights_telemetry::telemetry_publisher::next_call;
use app_insights_telemetry::telemetry_writer::{
    next_action, sink_call, sink_calls, status_code_text, write_batch, LoopAction, SinkCall,
    WriterMode,
};
use app_insights_telemetry::{AppInsightsTelemetry, EventsQueue, TelemetryEvent};

fn server_event(path: &str, status_code: u16, millis: u64) -> TelemetryEvent {
    TelemetryEvent::HttpServerEvent {
        url: path.parse::<hyper::Uri>().unwrap(),
        status_code,
        duration: Duration::from_millis(millis),
        method: hyper::Method::GET,
    }
}

fn dependency_event(name: &str, success: bool, millis: u64) -> TelemetryEvent {
    TelemetryEvent::HttpDependencyEvent {
        name: name.to_string(),
        dependency_type: "HTTP".to_string(),
        target: "db.local".to_string(),
        success,
        duration: Duration::from_millis(millis),
    }
}

#[test]
fn drain_returns_all_events_in_call_order() {
    let mut queue = EventsQueue::new();
    queue.enqueue(server_event("http://a.local/1", 200, 1));
    queue.enqueue(dependency_event("first", true, 2));
    queue.enqueue(server_event("http://a.local/3", 500, 3));
    let drained = queue.dequeue().expect("three events were buffered");
    assert_eq!(
        drained,
        vec![
            server_event("http://a.local/1", 200, 1),
            dependency_event("first", true, 2),
            server_event("http://a.local/3", 500, 3),
        ]
    );
    assert!(queue.dequeue().is_none());
}

#[test]
fn drain_on_empty_queue_is_none() {
    let mut queue = EventsQueue::new();
    assert!(queue.dequeue().is_none());
}

#[test]
fn zero_duration_event_is_not_the_empty_result() {
    let mut queue = EventsQueue::new();
    queue.enqueue(server_event("http://a.local/", 204, 0));
    let drained = queue.dequeue();
    assert_eq!(drained, Some(vec![server_event("http://a.local/", 204, 0)]));
    assert!(queue.dequeue().is_none());
}

#[test]
fn interleaved_appends_and_drains_lose_and_repeat_nothing() {
    let mut queue = EventsQueue::new();
    let mut seen = Vec::new();
    for round in 0..4u64 {
        for k in 0..round {
            queue.enqueue(dependency_event(&format!("call-{}-{}", round, k), k % 2 == 0, k));
        }
        if let Some(batch) = queue.dequeue() {
            seen.extend(batch);
        }
    }
    queue.enqueue(dependency_event("last", true, 9));
    let mut expected = Vec::new();
    for round in 0..4u64 {
        for k in 0..round {
            expected.push(dependency_event(&format!("call-{}-{}", round, k), k % 2 == 0, k));
        }
    }
    assert_eq!(seen, expected);
    assert_eq!(queue.dequeue(), Some(vec![dependency_event("last", true, 9)]));
}

#[test]
fn disabled_loop_never_drains_and_stops_on_shutdown() {
    let mut telemetry = AppInsightsTelemetry::new("role".to_string(), None);
    for k in 0..50u64 {
        telemetry.write_dependency_request_duration(
            "n".to_string(),
            "t".to_string(),
            "g".to_string(),
            true,
            Duration::from_millis(k),
        );
    }
    let decision = telemetry.start();
    assert_eq!(decision, StartDecision::Idle);
    let mut mode = decision.writer_mode();
    assert_eq!(mode, WriterMode::Disabled);
    let mut sink_calls_made = 0;
    for _ in 0..10 {
        let (next, action) = next_action(mode, false);
        mode = next;
        assert_eq!(action, LoopAction::Sleep);
        if action == LoopAction::Drain {
            sink_calls_made += 1;
        }
    }
    assert_eq!(sink_calls_made, 0);
    assert_eq!(next_action(mode, true), (WriterMode::Stopped, LoopAction::Stop));
}

#[test]
fn configured_loop_forwards_one_request() {
    let mut telemetry = AppInsightsTelemetry::new("role".to_string(), Some("key".to_string()));
    telemetry.write_http_request_duration(
        "http://svc.local/items".parse::<hyper::Uri>().unwrap(),
        hyper::Method::POST,
        200,
        Duration::from_millis(150),
    );
    let decision = telemetry.start();
    assert_eq!(
        decision,
        StartDecision::Publish { app_insights_key: "key".to_string(), role_name: "role".to_string() }
    );
    let (mode, action) = next_action(decision.writer_mode(), false);
    assert_eq!((mode, action), (WriterMode::Running, LoopAction::Drain));
    let calls = write_batch(telemetry.dequeue()).expect("one event was buffered");
    assert_eq!(
        calls,
        vec![SinkCall::TrackRequest {
            method: hyper::Method::POST,
            url: "http://svc.local/items".parse::<hyper::Uri>().unwrap(),
            duration: Duration::from_millis(150),
            response_code: "200".to_string(),
        }]
    );
    assert_eq!(write_batch(telemetry.dequeue()), None);
}

#[test]
fn sink_sees_events_in_recorded_order() {
    let mut telemetry = AppInsightsTelemetry::new("role".to_string(), Some("key".to_string()));
    telemetry.write_http_request_duration(
        "http://svc.local/a".parse::<hyper::Uri>().unwrap(),
        hyper::Method::GET,
        404,
        Duration::from_millis(5),
    );
    telemetry.write_dependency_request_duration(
        "query".to_string(),
        "SQL".to_string(),
        "db.local".to_string(),
        false,
        Duration::from_millis(7),
    );
    let calls = write_batch(telemetry.dequeue()).unwrap();
    assert_eq!(calls.len(), 2);
    assert!(matches!(&calls[0], SinkCall::TrackRequest { response_code, .. } if response_code == "404"));
    assert_eq!(
        calls[1],
        SinkCall::TrackDependency {
            name: "query".to_string(),
            dependency_type: "SQL".to_string(),
            duration: Duration::from_millis(7),
            target: "db.local".to_string(),
            success: false,
        }
    );
}

#[test]
fn second_start_idles() {
    let mut telemetry = AppInsightsTelemetry::new("svc".to_string(), Some("k1".to_string()));
    let first = telemetry.start();
    let second = telemetry.start();
    assert_eq!(
        first,
        StartDecision::Publish { app_insights_key: "k1".to_string(), role_name: "svc".to_string() }
    );
    assert_eq!(second, StartDecision::Idle);
    assert_eq!(second.writer_mode(), WriterMode::Disabled);
}

#[test]
fn recording_before_start_is_buffered() {
    let mut telemetry = AppInsightsTelemetry::new("svc".to_string(), Some("k1".to_string()));
    telemetry.write_http_request_duration(
        "/health".parse::<hyper::Uri>().unwrap(),
        hyper::Method::GET,
        200,
        Duration::from_millis(1),
    );
    let _ = telemetry.start();
    assert_eq!(telemetry.dequeue(), Some(vec![server_event("/health", 200, 1)]));
    assert_eq!(telemetry.dequeue(), None);
}

#[test]
fn status_code_text_is_decimal() {
    assert_eq!(status_code_text(0), "0");
    assert_eq!(status_code_text(7), "7");
    assert_eq!(status_code_text(10), "10");
    assert_eq!(status_code_text(200), "200");
    assert_eq!(status_code_text(503), "503");
    assert_eq!(status_code_text(65535), "65535");
}

#[test]
fn dependency_event_maps_to_dependency_call() {
    let call = sink_call(dependency_event("ping", true, 12));
    assert_eq!(
        call,
        SinkCall::TrackDependency {
            name: "ping".to_string(),
            dependency_type: "HTTP".to_string(),
            duration: Duration::from_millis(12),
            target: "db.local".to_string(),
            success: true,
        }
    );
}

#[test]
fn sink_calls_keep_order_of_many() {
    let events: Vec<TelemetryEvent> = (0..20u16).map(|k| server_event("/x", 100 + k, k as u64)).collect();
    let calls = sink_calls(events);
    assert_eq!(calls.len(), 20);
    for (k, call) in calls.iter().enumerate() {
        match call {
            SinkCall::TrackRequest { response_code, duration, .. } => {
                assert_eq!(response_code, &(100 + k).to_string());
                assert_eq!(*duration, Duration::from_millis(k as u64));
            }
            SinkCall::TrackDependency { .. } => panic!("expected a request record"),
        }
    }
}

#[test]
fn running_loop_drains_until_shutdown() {
    assert_eq!(next_action(WriterMode::Running, false), (WriterMode::Running, LoopAction::Drain));
    assert_eq!(next_action(WriterMode::Running, true), (WriterMode::Stopped, LoopAction::Stop));
    assert_eq!(next_action(WriterMode::Stopped, false), (WriterMode::Stopped, LoopAction::Stop));
    assert_eq!(write_batch(None), None);
}

#[test]
fn channel_publisher_forwards_until_shutdown_or_close() {
    assert_eq!(
        next_call(false, Some(server_event("/a", 201, 3))),
        Some(SinkCall::TrackRequest {
            method: hyper::Method::GET,
            url: "/a".parse::<hyper::Uri>().unwrap(),
            duration: Duration::from_millis(3),
            response_code: "201".to_string(),
        })
    );
    assert_eq!(next_call(true, Some(server_event("/a", 201, 3))), None);
    assert_eq!(next_call(false, None), None);
}
