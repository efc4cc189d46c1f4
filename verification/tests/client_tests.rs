use logclient::failure_message;
use logclient::make_record;
use logclient::prepare_save;
use logclient::resolve_base_url;
use logclient::route;
use logclient::Log;
use logclient::LogType;
use logclient::Source;

#[test]
fn test_route_all_severities() {
    assert_eq!(route(Some(LogType::Info)), "/log/info");
    assert_eq!(route(Some(LogType::Debug)), "/log/debug");
    assert_eq!(route(Some(LogType::Error)), "/log/error");
    assert_eq!(route(Some(LogType::Warning)), "/log/warning");
    assert_eq!(route(Some(LogType::Event)), "/log/event");
}

#[test]
fn test_route_default_is_info() {
    assert_eq!(route(None), "/log/info");
    assert_eq!(route(None), route(Some(LogType::Info)));
}

#[test]
fn test_default_base_url() {
    assert_eq!(resolve_base_url(None), "https://localhost:6000");
    assert_eq!(
        resolve_base_url(Some(String::from("http://collector:9000"))),
        "http://collector:9000"
    );
}

#[test]
fn test_prepare_save_urls_per_severity() {
    for (level, path) in [
        (LogType::Info, "/log/info"),
        (LogType::Debug, "/log/debug"),
        (LogType::Error, "/log/error"),
        (LogType::Warning, "/log/warning"),
        (LogType::Event, "/log/event"),
    ] {
        let log = Log::new_at(0).log_level(level);
        let req = prepare_save(log, Some(String::from("http://collector:9000")), None);
        assert_eq!(req.url, format!("http://collector:9000{}", path));
    }
}

#[test]
fn test_prepare_save_default_url_when_unset() {
    let log = Log::new_at(0).log_level(LogType::Error);
    let req = prepare_save(log, None, None);
    assert_eq!(req.url, "https://localhost:6000/log/error");
}

#[test]
fn test_prepare_save_routes_missing_severity_to_info() {
    let log = Log::new_at(0);
    let req = prepare_save(log, None, None);
    assert_eq!(req.url, "https://localhost:6000/log/info");
}

#[test]
fn test_fresh_record_serialization() {
    let log = Log::new_at(5);
    assert_eq!(
        log.to_json(),
        "{\"file\":null,\"line\":null,\"message\":null,\"source\":null,\
         \"log_level\":null,\"system\":null,\"timestamp\":5}"
    );
}

#[test]
fn test_full_record_serialization() {
    let source = Source::new()
        .name(String::from("svc"))
        .version(String::from("1.2"))
        .environment(String::from("prod"))
        .service(String::from("api"))
        .ip(String::from("10.0.0.1"));
    let log = Log::new_at(1234567890)
        .file(String::from("src/main.rs"))
        .line(42)
        .message(String::from("hello"))
        .source(source)
        .log_level(LogType::Warning)
        .stamp_system(Some(String::from("billing")));
    assert_eq!(
        log.to_json(),
        "{\"file\":\"src/main.rs\",\"line\":42,\"message\":\"hello\",\
         \"source\":{\"name\":\"svc\",\"version\":\"1.2\",\"environment\":\"prod\",\
         \"service\":\"api\",\"ip\":\"10.0.0.1\"},\"log_level\":\"Warning\",\
         \"system\":\"billing\",\"timestamp\":1234567890}"
    );
}

#[test]
fn test_log_level_serializations() {
    for (level, name) in [
        (LogType::Info, "\"Info\""),
        (LogType::Debug, "\"Debug\""),
        (LogType::Error, "\"Error\""),
        (LogType::Warning, "\"Warning\""),
        (LogType::Event, "\"Event\""),
    ] {
        let json = Log::new_at(0).log_level(level).to_json();
        assert!(json.contains(&format!("\"log_level\":{}", name)));
    }
}

#[test]
fn test_json_escaping() {
    let log = Log::new_at(0).message(String::from("a\"b\\c\nd\u{1}e"));
    let json = log.to_json();
    assert!(json.contains("\"message\":\"a\\\"b\\\\c\\u000ad\\u0001e\""));
}

#[test]
fn test_largest_timestamp_serializes_exactly() {
    let log = Log::new_at(u64::MAX);
    assert!(log.to_json().ends_with("\"timestamp\":18446744073709551615}"));
}

#[test]
fn test_builder_order_irrelevant_for_json() {
    let base = Log::new_at(77);
    let first = base
        .clone()
        .file(String::from("a.rs"))
        .line(1)
        .message(String::from("m"))
        .source(Source::new())
        .log_level(LogType::Debug);
    let second = base
        .log_level(LogType::Debug)
        .source(Source::new())
        .message(String::from("m"))
        .line(1)
        .file(String::from("a.rs"));
    assert_eq!(first.to_json(), second.to_json());
}

#[test]
fn test_builder_last_write_wins() {
    let log = Log::new_at(0)
        .message(String::from("first"))
        .message(String::from("second"));
    assert!(log.to_json().contains("\"message\":\"second\""));
    assert!(!log.to_json().contains("first"));
}

#[test]
fn test_timestamp_survives_building_and_stamping() {
    let log = Log::new_at(7)
        .file(String::from("a.rs"))
        .line(3)
        .message(String::from("m"))
        .log_level(LogType::Event)
        .stamp_system(Some(String::from("sys")));
    assert_eq!(log.timestamp, 7);
    assert!(log.to_json().contains("\"timestamp\":7"));
}

#[test]
fn test_unset_system_serializes_null() {
    let log = Log::new_at(0).message(String::from("hi"));
    assert!(log.to_json().contains("\"system\":null"));
}

#[test]
fn test_stamped_system_serializes_value() {
    let log = Log::new_at(0).stamp_system(Some(String::from("billing")));
    assert!(log.to_json().contains("\"system\":\"billing\""));
}

#[test]
fn test_failure_message_names_severity() {
    assert_eq!(
        failure_message(LogType::Info, "connection refused"),
        "Failed to send log info: connection refused"
    );
    assert_eq!(
        failure_message(LogType::Warning, "status 500"),
        "Failed to send log warning: status 500"
    );
    assert_eq!(failure_message(LogType::Debug, "x"), "Failed to send log debug: x");
    assert_eq!(failure_message(LogType::Error, "x"), "Failed to send log error: x");
    assert_eq!(failure_message(LogType::Event, "x"), "Failed to send log event: x");
}

#[test]
fn test_make_record_fields() {
    let log = make_record(LogType::Error, "src/job.rs", 99, "boom");
    assert_eq!(log.file.as_deref(), Some("src/job.rs"));
    assert_eq!(log.line, Some(99));
    assert_eq!(log.message.as_deref(), Some("boom"));
    assert_eq!(log.log_level, Some(LogType::Error));
    assert!(log.system.is_none());
    let source = log.source.expect("source is set");
    assert!(source.name.is_none());
    assert!(source.version.is_none());
    assert!(source.environment.is_none());
    assert!(source.service.is_none());
    assert!(source.ip.is_none());
}

#[test]
fn test_info_hello_request() {
    let log = Log::new_at(0).message(String::from("hello")).log_level(LogType::Info);
    let req = prepare_save(log, None, None);
    assert_eq!(req.url, "https://localhost:6000/log/info");
    assert!(req.body.contains("\"message\":\"hello\""));
    assert!(req.body.contains("\"log_level\":\"Info\""));
    assert_eq!(
        req.body,
        "{\"file\":null,\"line\":null,\"message\":\"hello\",\"source\":null,\
         \"log_level\":\"Info\",\"system\":null,\"timestamp\":0}"
    );
}

#[test]
fn test_prepare_save_stamps_system_into_body() {
    let log = Log::new_at(0).message(String::from("m"));
    let req = prepare_save(log, None, Some(String::from("warehouse")));
    assert!(req.body.contains("\"system\":\"warehouse\""));
}

#[test]
fn test_new_records_use_the_clock() {
    let log = Log::new();
    assert!(log.file.is_none());
    assert!(log.message.is_none());
    assert!(log.log_level.is_none());
    assert!(log.system.is_none());
    let later = Log::new();
    assert!(later.timestamp >= log.timestamp);
}
