use vstd::prelude::*;

verus! {

/// Severity of a log record; it determines the collector route.
#[derive(Clone, Copy, PartialEq, Eq, Structural, Debug)]
pub enum LogType {
    Info,
    Debug,
    Error,
    Warning,
    Event,
}

/// Optional descriptive metadata about the emitting process.
#[derive(Clone, Debug)]
pub struct Source {
    pub name: Option<String>,
    pub version: Option<String>,
    pub environment: Option<String>,
    pub service: Option<String>,
    pub ip: Option<String>,
}

/// One log event. All fields but `timestamp` are optional: an incomplete
/// record is a valid value and is still sendable. `timestamp` is fixed when
/// the record is created and reflects creation time, not send time.
#[derive(Clone, Debug)]
pub struct Log {
    pub file: Option<String>,
    pub line: Option<u64>,
    pub message: Option<String>,
    pub source: Option<Source>,
    pub log_level: Option<LogType>,
    pub system: Option<String>,
    pub timestamp: u64,
}

/// Relies on std::time::SystemTime::now: the wall clock, converted to whole
/// milliseconds since the Unix epoch (0 if the clock reads before the epoch).
/// Nothing is assumed of the value, which depends on the machine's clock.
#[verifier::external_body]
fn now_millis() -> u64 {
    match std::time::SystemTime::now().duration_since(std::time::UNIX_EPOCH) {
        Ok(d) => d.as_millis() as u64,
        Err(_) => 0,
    }
}

impl Source {
    pub open spec fn spec_empty() -> Source {
        Source { name: None, version: None, environment: None, service: None, ip: None }
    }

    /// A source with no fields set.
    pub fn new() -> (r: Source)
        ensures
            r == Source::spec_empty(),
    {
        Source { name: None, version: None, environment: None, service: None, ip: None }
    }

    pub open spec fn with_name(self, name: String) -> Source {
        Source { name: Some(name), ..self }
    }

    pub open spec fn with_version(self, version: String) -> Source {
        Source { version: Some(version), ..self }
    }

    pub open spec fn with_environment(self, environment: String) -> Source {
        Source { environment: Some(environment), ..self }
    }

    pub open spec fn with_service(self, service: String) -> Source {
        Source { service: Some(service), ..self }
    }

    pub open spec fn with_ip(self, ip: String) -> Source {
        Source { ip: Some(ip), ..self }
    }

    /// Set the process name; the last write wins.
    pub fn name(self, name: String) -> (r: Source)
        ensures
            r == self.with_name(name),
    {
        Source { name: Some(name), ..self }
    }

    /// Set the process version; the last write wins.
    pub fn version(self, version: String) -> (r: Source)
        ensures
            r == self.with_version(version),
    {
        Source { version: Some(version), ..self }
    }

    /// Set the deployment environment; the last write wins.
    pub fn environment(self, environment: String) -> (r: Source)
        ensures
            r == self.with_environment(environment),
    {
        Source { environment: Some(environment), ..self }
    }

    /// Set the service name; the last write wins.
    pub fn service(self, service: String) -> (r: Source)
        ensures
            r == self.with_service(service),
    {
        Source { service: Some(service), ..self }
    }

    /// Set the host address; the last write wins.
    pub fn ip(self, ip: String) -> (r: Source)
        ensures
            r == self.with_ip(ip),
    {
        Source { ip: Some(ip), ..self }
    }
}

impl Log {
    /// The record that `new` returns: every optional field unset.
    pub open spec fn spec_fresh(timestamp: u64) -> Log {
        Log {
            file: None,
            line: None,
            message: None,
            source: None,
            log_level: None,
            system: None,
            timestamp: timestamp,
        }
    }

    /// A fresh record stamped with the given creation time (milliseconds
    /// since the Unix epoch). No other field is set.
    pub fn new_at(timestamp: u64) -> (r: Log)
        ensures
            r == Log::spec_fresh(timestamp),
    {
        Log {
            file: None,
            line: None,
            message: None,
            source: None,
            log_level: None,
            system: None,
            timestamp: timestamp,
        }
    }

    /// A fresh record stamped with the current wall-clock time. The timestamp
    /// is set once, here, and no setter changes it afterwards.
    pub fn new() -> (r: Log)
        ensures
            r == Log::spec_fresh(r.timestamp),
    {
        Log::new_at(now_millis())
    }

    pub open spec fn with_file(self, file: String) -> Log {
        Log { file: Some(file), ..self }
    }

    pub open spec fn with_line(self, line: u64) -> Log {
        Log { line: Some(line), ..self }
    }

    pub open spec fn with_message(self, message: String) -> Log {
        Log { message: Some(message), ..self }
    }

    pub open spec fn with_source(self, source: Source) -> Log {
        Log { source: Some(source), ..self }
    }

    pub open spec fn with_log_level(self, log_level: LogType) -> Log {
        Log { log_level: Some(log_level), ..self }
    }

    pub open spec fn with_system(self, system: Option<String>) -> Log {
        Log { system: system, ..self }
    }

    /// Set the call site's source file; the last write wins.
    pub fn file(self, file: String) -> (r: Log)
        ensures
            r == self.with_file(file),
    {
        Log { file: Some(file), ..self }
    }

    /// Set the call site's source line; the last write wins.
    pub fn line(self, line: u64) -> (r: Log)
        ensures
            r == self.with_line(line),
    {
        Log { line: Some(line), ..self }
    }

    /// Set the message text; the last write wins.
    pub fn message(self, message: String) -> (r: Log)
        ensures
            r == self.with_message(message),
    {
        Log { message: Some(message), ..self }
    }

    /// Set the source metadata; the last write wins.
    pub fn source(self, source: Source) -> (r: Log)
        ensures
            r == self.with_source(source),
    {
        Log { source: Some(source), ..self }
    }

    /// Set the severity; the last write wins.
    pub fn log_level(self, log_level: LogType) -> (r: Log)
        ensures
            r == self.with_log_level(log_level),
    {
        Log { log_level: Some(log_level), ..self }
    }
}

/// Setters on distinct fields commute: applying two of them in either order
/// yields the same record, whichever pair is chosen. Since serialization is a
/// function of the record alone, records built with the same fields set in any
/// order serialize identically.
pub proof fn lemma_setters_commute(
    l: Log,
    file: String,
    line: u64,
    message: String,
    source: Source,
    log_level: LogType,
)
    ensures
        l.with_file(file).with_line(line) == l.with_line(line).with_file(file),
        l.with_file(file).with_message(message) == l.with_message(message).with_file(file),
        l.with_file(file).with_source(source) == l.with_source(source).with_file(file),
        l.with_file(file).with_log_level(log_level) == l.with_log_level(log_level).with_file(
            file,
        ),
        l.with_line(line).with_message(message) == l.with_message(message).with_line(line),
        l.with_line(line).with_source(source) == l.with_source(source).with_line(line),
        l.with_line(line).with_log_level(log_level) == l.with_log_level(log_level).with_line(
            line,
        ),
        l.with_message(message).with_source(source) == l.with_source(source).with_message(
            message,
        ),
        l.with_message(message).with_log_level(log_level) == l.with_log_level(
            log_level,
        ).with_message(message),
        l.with_source(source).with_log_level(log_level) == l.with_log_level(
            log_level,
        ).with_source(source),
{
}

/// No setter touches the timestamp: it stays what construction made it.
pub proof fn lemma_setters_preserve_timestamp(
    l: Log,
    file: String,
    line: u64,
    message: String,
    source: Source,
    log_level: LogType,
    system: Option<String>,
)
    ensures
        l.with_file(file).timestamp == l.timestamp,
        l.with_line(line).timestamp == l.timestamp,
        l.with_message(message).timestamp == l.timestamp,
        l.with_source(source).timestamp == l.timestamp,
        l.with_log_level(log_level).timestamp == l.timestamp,
        l.with_system(system).timestamp == l.timestamp,
{
}

} // verus!
