use vstd::prelude::*;
use vstd::string::StringExecFns;

use crate::json::json_of_log;
use crate::record::Log;
use crate::record::LogType;
use crate::record::Source;

verus! {

/// The collector path for a severity. The mapping is fixed and exhaustive;
/// a record without a severity routes to the info path by design, not as an
/// error.
pub open spec fn spec_route(log_level: Option<LogType>) -> Seq<char> {
    match log_level {
        Some(LogType::Info) => "/log/info"@,
        Some(LogType::Debug) => "/log/debug"@,
        Some(LogType::Error) => "/log/error"@,
        Some(LogType::Warning) => "/log/warning"@,
        Some(LogType::Event) => "/log/event"@,
        None => "/log/info"@,
    }
}

/// Resolve a severity to its collector path.
pub fn route(log_level: Option<LogType>) -> (r: &'static str)
    ensures
        r@ == spec_route(log_level),
{
    match log_level {
        Some(LogType::Info) => "/log/info",
        Some(LogType::Debug) => "/log/debug",
        Some(LogType::Error) => "/log/error",
        Some(LogType::Warning) => "/log/warning",
        Some(LogType::Event) => "/log/event",
        None => "/log/info",
    }
}

/// The collector base URL for a configured value: the value itself, or the
/// documented default when the variable is unset.
pub open spec fn spec_base_url(logging_url: Option<String>) -> Seq<char> {
    match logging_url {
        Some(s) => s@,
        None => "https://localhost:6000"@,
    }
}

/// Resolve the collector base URL from the configured value, if any. A
/// missing value degrades to the default, never to an error.
pub fn resolve_base_url(logging_url: Option<String>) -> (r: String)
    ensures
        r@ == spec_base_url(logging_url),
{
    match logging_url {
        Some(s) => s,
        None => String::from_str("https://localhost:6000"),
    }
}

impl Log {
    /// Stamp the configured system identity into the record, as the
    /// dispatcher does. Every other field, the timestamp included, is left
    /// exactly as the builder made it.
    pub fn stamp_system(self, system: Option<String>) -> (r: Log)
        ensures
            r == self.with_system(system),
    {
        Log { system: system, ..self }
    }
}

/// Stamping the system at dispatch time changes that one field and nothing
/// else: in particular the timestamp stays what construction made it, however
/// long dispatch was delayed.
pub proof fn lemma_stamp_changes_only_system(l: Log, system: Option<String>)
    ensures
        l.with_system(system).system == system,
        l.with_system(system).timestamp == l.timestamp,
        l.with_system(system).file == l.file,
        l.with_system(system).line == l.line,
        l.with_system(system).message == l.message,
        l.with_system(system).source == l.source,
        l.with_system(system).log_level == l.log_level,
{
}

/// One prepared send: where to POST and what body to ship.
pub struct SaveRequest {
    pub url: String,
    pub body: String,
}

/// Everything a send computes before the network call: stamp the configured
/// system identity into the record, resolve the base URL (default applied
/// when unset) and the severity path, and serialize the stamped record.
pub fn prepare_save(log: Log, logging_url: Option<String>, system: Option<String>) -> (r:
    SaveRequest)
    ensures
        r.url@ == spec_base_url(logging_url) + spec_route(log.log_level),
        r.body@ == json_of_log(log.with_system(system)),
{
    let stamped = log.stamp_system(system);
    let base = resolve_base_url(logging_url);
    let path = route(stamped.log_level);
    let body = stamped.to_json();
    SaveRequest { url: base.concat(path), body: body }
}

/// The lower-case name of a severity, as the failure diagnostic uses it.
pub open spec fn level_name(log_level: LogType) -> Seq<char> {
    match log_level {
        LogType::Info => "info"@,
        LogType::Debug => "debug"@,
        LogType::Error => "error"@,
        LogType::Warning => "warning"@,
        LogType::Event => "event"@,
    }
}

/// The local diagnostic written when a send fails. It names the severity and
/// carries the transport error's text; it is never surfaced to the call site.
pub fn failure_message(log_level: LogType, details: &str) -> (r: String)
    ensures
        r@ == "Failed to send log "@ + level_name(log_level) + ": "@ + details@,
{
    let mut out = String::from_str("Failed to send log ");
    match log_level {
        LogType::Info => out.append("info"),
        LogType::Debug => out.append("debug"),
        LogType::Error => out.append("error"),
        LogType::Warning => out.append("warning"),
        LogType::Event => out.append("event"),
    }
    out.append(": ");
    out.append(details);
    proof {
        assert(out@ =~= "Failed to send log "@ + level_name(log_level) + ": "@ + details@);
    }
    out
}

/// Build the record one call-site entry point ships: the call site's file and
/// line, the message, the given severity, empty source metadata, and the
/// current wall-clock time. The system identity is left for the dispatcher.
pub fn make_record(log_level: LogType, file: &str, line: u64, message: &str) -> (r: Log)
    ensures
        (r.file matches Some(f) && f@ == file@),
        r.line == Some(line),
        (r.message matches Some(m) && m@ == message@),
        r.source == Some(Source::spec_empty()),
        r.log_level == Some(log_level),
        r.system is None,
{
    Log::new().file(String::from_str(file)).line(line).message(String::from_str(message)).source(
        Source::new(),
    ).log_level(log_level)
}

} // verus!
