//! A policy that reports each request and lets it pass.
//!
//! The policy does not write anything itself. It hands back what is to be
//! reported, and whoever runs the chain writes it down and resumes the policy.

use crate::config::DatabasesConfig;
use crate::http::{copy_headers, Request, RequestView};
use crate::policy::routes::{RouteRegistration, RouteRegistrationView};
use crate::policy::traits::{
    LogLevel, LogRecord, LogRecordView, LookupAnswer, LookupAnswerView, Policy, PolicyFactory,
    PolicyIdentity, PolicyResult, PolicyResultView, PolicyStep, PolicyStepView,
};
use crate::text::{equal, lowercase, to_lowercase};
use crate::value::{field, OpaqueValue, ValueView};
use vstd::prelude::*;
use vstd::string::*;

verus! {

/// Configuration for the logging policy.
#[derive(Debug, Clone)]
pub struct LoggingConfig {
    /// `debug`, `info`, `warn` or `error`, in any case.
    pub log_level: String,
    /// Whether a report at level `debug` holds the headers of the request.
    pub include_headers: bool,
}

pub struct LoggingConfigView {
    pub log_level: Seq<char>,
    pub include_headers: bool,
}

impl View for LoggingConfig {
    type V = LoggingConfigView;

    open spec fn view(&self) -> LoggingConfigView {
        LoggingConfigView { log_level: self.log_level@, include_headers: self.include_headers }
    }
}

/// The level that a name stands for, whatever its case.
pub open spec fn level_named(name: Seq<char>) -> Option<LogLevel> {
    let name = lowercase(name);
    if name == "debug"@ {
        Some(LogLevel::Debug)
    } else if name == "info"@ {
        Some(LogLevel::Info)
    } else if name == "warn"@ {
        Some(LogLevel::Warn)
    } else if name == "error"@ {
        Some(LogLevel::Error)
    } else {
        None
    }
}

/// The level that a name stands for, whatever its case.
pub fn parse_level(name: &str) -> (r: Option<LogLevel>)
    ensures
        r == level_named(name@),
{
    let name = to_lowercase(name);
    if equal(name.as_str(), "debug") {
        Some(LogLevel::Debug)
    } else if equal(name.as_str(), "info") {
        Some(LogLevel::Info)
    } else if equal(name.as_str(), "warn") {
        Some(LogLevel::Warn)
    } else if equal(name.as_str(), "error") {
        Some(LogLevel::Error)
    } else {
        None
    }
}

/// The path of a request, then a question mark and the query where there is one.
pub open spec fn target_of(request: RequestView) -> Seq<char> {
    if request.query.len() == 0 {
        request.path
    } else {
        request.path + "?"@ + request.query
    }
}

/// What is reported of a request: its method and target at the configured
/// level, with its headers where the level is `debug` and the configuration
/// asks for them. Nothing is reported where the level has no known name.
pub open spec fn report(config: LoggingConfigView, request: RequestView) -> Option<LogRecordView> {
    match level_named(config.log_level) {
        None => None,
        Some(level) => Some(
            LogRecordView {
                level,
                method: request.method,
                target: target_of(request),
                headers: if level == LogLevel::Debug && config.include_headers {
                    Some(request.headers)
                } else {
                    None
                },
            },
        ),
    }
}

/// The configuration that untyped parameters stand for: a mapping whose
/// field `log_level` is a text and whose field `include_headers` is a truth value.
pub open spec fn logging_typed(parameters: ValueView) -> Option<LoggingConfigView> {
    match (field(parameters, "log_level"@), field(parameters, "include_headers"@)) {
        (Some(ValueView::Text(level)), Some(ValueView::Bool(include_headers))) => Some(
            LoggingConfigView { log_level: level, include_headers },
        ),
        _ => None,
    }
}

/// What is said against parameters that stand for no configuration.
pub open spec fn logging_parse_error(parameters: ValueView) -> Seq<char> {
    match field(parameters, "log_level"@) {
        Some(ValueView::Text(level)) => "include_headers: expected a boolean"@,
        _ => "log_level: expected a string"@,
    }
}

/// What is said against a level without a known name.
pub open spec fn level_complaint(level: Seq<char>) -> Seq<char> {
    "Invalid log level: "@ + level
        + ". Must be one of: [\"debug\", \"info\", \"warn\", \"error\"]"@
}

/// Simple policy for logging requests.
pub struct LoggingPolicy {
    config: LoggingConfig,
}

impl LoggingPolicy {
    /// The configuration that the policy was built from.
    pub closed spec fn config(&self) -> LoggingConfigView {
        self.config@
    }

    /// What is to be reported of `request`.
    pub fn record(&self, request: &Request) -> (r: Option<LogRecord>)
        ensures
            r.deep_view() == report(self.config(), request@),
    {
        let level = match parse_level(self.config.log_level.as_str()) {
            Some(level) => level,
            None => {
                return None;
            },
        };
        let target = if request.query.as_str().is_empty() {
            request.path.clone()
        } else {
            request.path.clone().concat("?").concat(request.query.as_str())
        };
        let headers = match level {
            LogLevel::Debug => if self.config.include_headers {
                Some(copy_headers(&request.headers))
            } else {
                None
            },
            _ => None,
        };
        Some(LogRecord { level, method: request.method.clone(), target, headers })
    }
}

impl Policy for LoggingPolicy {
    open spec fn identity(&self) -> PolicyIdentity {
        PolicyIdentity {
            provider: "bouncer"@,
            category: "observability"@,
            name: "logging"@,
            version: "v1"@,
        }
    }

    open spec fn routes(&self) -> Seq<RouteRegistrationView> {
        Seq::empty()
    }

    open spec fn in_chain(&self) -> bool {
        true
    }

    /// The request is handed back with what is to be reported of it; where
    /// nothing is, it goes on at once.
    open spec fn step(&self, request: RequestView) -> PolicyStepView {
        match report(self.config(), request) {
            Some(record) => PolicyStepView::Report { request, record },
            None => PolicyStepView::Done(PolicyResultView::Continue(request)),
        }
    }

    /// Every request goes on as it came.
    open spec fn outcome(&self, request: RequestView, answer: LookupAnswerView) -> PolicyResultView {
        PolicyResultView::Continue(request)
    }

    fn provider(&self) -> (r: &'static str) {
        "bouncer"
    }

    fn category(&self) -> (r: &'static str) {
        "observability"
    }

    fn name(&self) -> (r: &'static str) {
        "logging"
    }

    fn version(&self) -> (r: &'static str) {
        "v1"
    }

    fn register_routes(&self) -> (r: Vec<RouteRegistration>) {
        let r: Vec<RouteRegistration> = Vec::new();
        assert(r.deep_view() == Seq::<RouteRegistrationView>::empty());
        r
    }

    fn processes_requests(&self) -> (r: bool) {
        true
    }

    fn process(&self, request: Request) -> (r: PolicyStep) {
        match self.record(&request) {
            Some(record) => PolicyStep::Report { request, record },
            None => PolicyStep::Done(PolicyResult::Continue(request)),
        }
    }

    fn resume(&self, request: Request, answer: LookupAnswer) -> (r: PolicyResult) {
        PolicyResult::Continue(request)
    }
}

impl PolicyFactory for LoggingPolicy {
    type PolicyType = LoggingPolicy;

    type Config = LoggingConfig;

    open spec fn id() -> Seq<char> {
        "logging"@
    }

    open spec fn version_name() -> Option<Seq<char>> {
        None
    }

    open spec fn typed(parameters: ValueView) -> Option<LoggingConfigView> {
        logging_typed(parameters)
    }

    open spec fn parse_error(parameters: ValueView) -> Seq<char> {
        logging_parse_error(parameters)
    }

    open spec fn acceptable(config: LoggingConfigView) -> bool {
        level_named(config.log_level) is Some
    }

    open spec fn supplied(config: LoggingConfigView, databases: DatabasesConfig) -> bool {
        true
    }

    open spec fn new_error(config: LoggingConfigView, databases: DatabasesConfig) -> Seq<char> {
        level_complaint(config.log_level)
    }

    open spec fn made(
        config: LoggingConfigView,
        databases: DatabasesConfig,
        policy: LoggingPolicy,
    ) -> bool {
        policy.config() == config
    }

    fn policy_id() -> (r: &'static str) {
        "logging"
    }

    fn version() -> (r: Option<&'static str>) {
        None
    }

    fn parse_config(parameters: &OpaqueValue) -> (r: Result<LoggingConfig, String>) {
        let log_level = match parameters.get("log_level") {
            Some(OpaqueValue::Text(level)) => level.clone(),
            _ => {
                return Err("log_level: expected a string".to_owned());
            },
        };
        let include_headers = match parameters.get("include_headers") {
            Some(OpaqueValue::Bool(value)) => *value,
            _ => {
                return Err("include_headers: expected a boolean".to_owned());
            },
        };
        Ok(LoggingConfig { log_level, include_headers })
    }

    fn new(config: LoggingConfig, databases: &DatabasesConfig) -> (r: Result<
        LoggingPolicy,
        String,
    >) {
        match Self::validate_config(&config) {
            Err(message) => Err(message),
            Ok(()) => Ok(LoggingPolicy { config }),
        }
    }

    fn validate_config(config: &LoggingConfig) -> (r: Result<(), String>)
        ensures
            r matches Err(message) ==> message@ == level_complaint(config@.log_level),
    {
        match parse_level(config.log_level.as_str()) {
            Some(_) => Ok(()),
            None => Err(
                "Invalid log level: ".to_owned().concat(config.log_level.as_str()).concat(
                    ". Must be one of: [\"debug\", \"info\", \"warn\", \"error\"]",
                ),
            ),
        }
    }
}

} // verus!
