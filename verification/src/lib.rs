//! Structured-logging client library.
//!
//! Call sites build a structured log record (source file, line, message,
//! severity, timestamp, originating-service metadata); the library serializes
//! the record to JSON and computes the collector URL for it. The surrounding
//! application ships the result over HTTP, asynchronously and best-effort.

pub mod dispatch;
pub mod json;
pub mod record;

pub use dispatch::failure_message;
pub use dispatch::make_record;
pub use dispatch::prepare_save;
pub use dispatch::resolve_base_url;
pub use dispatch::route;
pub use dispatch::SaveRequest;
pub use record::Log;
pub use record::LogType;
pub use record::Source;
