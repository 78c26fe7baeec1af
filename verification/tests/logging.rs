use bouncer::config::DatabasesConfig;
use bouncer::http::{Header, Request};
use bouncer::policy::middleware::{ChainProgress, PolicyLayer};
use bouncer::policy::providers::logging::{parse_level, LoggingConfig, LoggingPolicy};
use bouncer::policy::traits::{LogLevel, Policy, PolicyFactory, PolicyResult, PolicyStep};
use bouncer::value::OpaqueValue;

fn request(query: &str) -> Request {
    Request {
        method: "PUT".to_string(),
        path: "/items/7".to_string(),
        query: query.to_string(),
        headers: vec![Header { name: "accept".to_string(), value: b"*/*".to_vec() }],
    }
}

fn policy(level: &str, include_headers: bool) -> LoggingPolicy {
    let config = LoggingConfig { log_level: level.to_string(), include_headers };
    <LoggingPolicy as PolicyFactory>::new(config, &DatabasesConfig::default()).ok().unwrap()
}

#[test]
fn levels_are_named_in_any_case() {
    assert_eq!(parse_level("debug"), Some(LogLevel::Debug));
    assert_eq!(parse_level("INFO"), Some(LogLevel::Info));
    assert_eq!(parse_level("Warn"), Some(LogLevel::Warn));
    assert_eq!(parse_level("eRRoR"), Some(LogLevel::Error));
    assert_eq!(parse_level("trace"), None);
    assert_eq!(parse_level(""), None);
}

#[test]
fn unknown_level_is_refused() {
    let config = LoggingConfig { log_level: "loud".to_string(), include_headers: false };
    let expected = "Invalid log level: loud. Must be one of: [\"debug\", \"info\", \"warn\", \"error\"]";
    assert_eq!(<LoggingPolicy as PolicyFactory>::validate_config(&config).unwrap_err(), expected);
    let e = <LoggingPolicy as PolicyFactory>::new(config, &DatabasesConfig::default()).err().unwrap();
    assert_eq!(e, expected);
}

#[test]
fn method_and_target_are_reported() {
    let p = policy("info", true);
    let record = p.record(&request("full=1")).unwrap();
    assert_eq!(record.level, LogLevel::Info);
    assert_eq!(record.method, "PUT");
    assert_eq!(record.target, "/items/7?full=1");
    assert!(record.headers.is_none());
    assert_eq!(p.record(&request("")).unwrap().target, "/items/7");
}

#[test]
fn headers_are_reported_at_debug_level_on_demand() {
    let with = policy("DEBUG", true).record(&request("")).unwrap();
    assert_eq!(with.level, LogLevel::Debug);
    let headers = with.headers.unwrap();
    assert_eq!(headers.len(), 1);
    assert_eq!(headers[0].name, "accept");
    assert_eq!(headers[0].value, b"*/*".to_vec());
    assert!(policy("debug", false).record(&request("")).unwrap().headers.is_none());
}

#[test]
fn the_request_is_handed_back_with_the_report_and_goes_on() {
    let p = policy("warn", false);
    let held = match p.process(request("a=b")) {
        PolicyStep::Report { request, record } => {
            assert_eq!(record.level, LogLevel::Warn);
            assert_eq!(record.target, "/items/7?a=b");
            request
        }
        _ => panic!("the request was to be reported"),
    };
    match p.resume(held, Ok(None)) {
        PolicyResult::Continue(next) => {
            assert_eq!(next.path, "/items/7");
            assert_eq!(next.query, "a=b");
            assert_eq!(next.headers.len(), 1);
        }
        _ => panic!("the request was to go on"),
    }
}

#[test]
fn the_chain_stops_for_the_report() {
    let layer = PolicyLayer::new(vec![policy("error", false), policy("info", false)]);
    let held = match layer.call(request("")) {
        ChainProgress::Reporting { position: 0, request, record } => {
            assert_eq!(record.level, LogLevel::Error);
            request
        }
        _ => panic!("the first policy was to report"),
    };
    let held = match layer.resume(0, held, Ok(None)) {
        ChainProgress::Reporting { position: 1, request, record } => {
            assert_eq!(record.level, LogLevel::Info);
            request
        }
        _ => panic!("the second policy was to report"),
    };
    assert!(matches!(layer.resume(1, held, Ok(None)), ChainProgress::Forward(_)));
}

#[test]
fn logging_parameters_are_given_their_type() {
    let p = OpaqueValue::Mapping(vec![
        ("log_level".to_string(), OpaqueValue::Text("info".to_string())),
        ("include_headers".to_string(), OpaqueValue::Bool(true)),
    ]);
    let c = <LoggingPolicy as PolicyFactory>::parse_config(&p).unwrap();
    assert_eq!(c.log_level, "info");
    assert!(c.include_headers);
    let missing = OpaqueValue::Mapping(vec![(
        "log_level".to_string(),
        OpaqueValue::Text("info".to_string()),
    )]);
    assert_eq!(
        <LoggingPolicy as PolicyFactory>::parse_config(&missing).unwrap_err(),
        "include_headers: expected a boolean"
    );
    assert_eq!(
        <LoggingPolicy as PolicyFactory>::parse_config(&OpaqueValue::Null).unwrap_err(),
        "log_level: expected a string"
    );
}

#[test]
fn logging_identity() {
    let p = policy("info", false);
    assert_eq!(<LoggingPolicy as PolicyFactory>::policy_id(), "logging");
    assert_eq!(<LoggingPolicy as PolicyFactory>::version(), None);
    assert_eq!(
        (p.provider(), p.category(), Policy::name(&p), Policy::version(&p)),
        ("bouncer", "observability", "logging", "v1")
    );
}
