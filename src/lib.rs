pub mod app_insights_telemetry;
pub mod events_queue;
pub mod telemetry_event;
pub mod telemetry_publisher;
pub mod telemetry_writer;

pub use app_insights_telemetry::AppInsightsTelemetry;
pub use events_queue::EventsQueue;
pub use telemetry_event::TelemetryEvent;
