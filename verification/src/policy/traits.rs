//! What a policy is, and what builds one.
//!
//! A policy decides by itself, with two exceptions: it may ask a token store
//! a question, and it may have something reported. It can do neither by
//! itself. It hands the question (`PolicyStep::Lookup`) or the report
//! (`PolicyStep::Report`) back and is called again (`resume`) with the
//! store's answer, or once the report is written.

use crate::config::DatabasesConfig;
use crate::database::{DatabaseError, DatabaseErrorView};
use crate::http::{Header, HeaderView, Request, RequestView, Response, ResponseView};
use crate::policy::routes::{RouteRegistration, RouteRegistrationView};
use crate::value::{OpaqueValue, ValueView};
use vstd::prelude::*;

verus! {

/// What a policy decides on a request: it goes on, perhaps changed, or it is
/// answered at once.
pub enum PolicyResult {
    Continue(Request),
    Terminate(Response),
}

pub enum PolicyResultView {
    Continue(RequestView),
    Terminate(ResponseView),
}

impl View for PolicyResult {
    type V = PolicyResultView;

    open spec fn view(&self) -> PolicyResultView {
        match self {
            PolicyResult::Continue(request) => PolicyResultView::Continue(request@),
            PolicyResult::Terminate(response) => PolicyResultView::Terminate(response@),
        }
    }
}

/// A question to a token store: which role, if any, belongs to a token.
pub enum TokenQuery {
    /// Run `statement` on the SQL database `provider` (`postgres` or
    /// `mysql`) with `token` as its one parameter; the role is the text in
    /// the first column of the first row.
    Sql { provider: String, statement: String, token: String },
    /// Read `key` from the key-value store; the role is its value.
    Key { key: String },
    /// Find the document of `collection` in `database` whose field `token`
    /// is `token`; the role is its field `role`.
    Document { database: String, collection: String, token: String },
}

pub enum TokenQueryView {
    Sql { provider: Seq<char>, statement: Seq<char>, token: Seq<char> },
    Key { key: Seq<char> },
    Document { database: Seq<char>, collection: Seq<char>, token: Seq<char> },
}

impl View for TokenQuery {
    type V = TokenQueryView;

    open spec fn view(&self) -> TokenQueryView {
        match self {
            TokenQuery::Sql { provider, statement, token } => TokenQueryView::Sql {
                provider: provider@,
                statement: statement@,
                token: token@,
            },
            TokenQuery::Key { key } => TokenQueryView::Key { key: key@ },
            TokenQuery::Document { database, collection, token } => TokenQueryView::Document {
                database: database@,
                collection: collection@,
                token: token@,
            },
        }
    }
}

/// What the store said: the role of the token, that it knows no such token,
/// or that it could not answer.
pub type LookupAnswer = Result<Option<String>, DatabaseError>;

pub type LookupAnswerView = Result<Option<Seq<char>>, DatabaseErrorView>;

/// The answer of a store as contracts speak of it.
pub open spec fn answer_view(answer: LookupAnswer) -> LookupAnswerView {
    match answer {
        Ok(Some(role)) => Ok(Some(role@)),
        Ok(None) => Ok(None),
        Err(error) => Err(error@),
    }
}

/// How much a report matters.
#[derive(Debug, Clone, Copy, PartialEq, Eq, Structural)]
pub enum LogLevel {
    Debug,
    Info,
    Warn,
    Error,
}

/// What is reported of a request.
pub struct LogRecord {
    pub level: LogLevel,
    pub method: String,
    /// The path of the request, and its query where it has one.
    pub target: String,
    pub headers: Option<Vec<Header>>,
}

pub struct LogRecordView {
    pub level: LogLevel,
    pub method: Seq<char>,
    pub target: Seq<char>,
    pub headers: Option<Seq<HeaderView>>,
}

impl View for LogRecord {
    type V = LogRecordView;

    open spec fn view(&self) -> LogRecordView {
        LogRecordView {
            level: self.level,
            method: self.method@,
            target: self.target@,
            headers: self.headers.deep_view(),
        }
    }
}

impl DeepView for LogRecord {
    type V = LogRecordView;

    open spec fn deep_view(&self) -> LogRecordView {
        self@
    }
}

/// How far a policy got with a request.
pub enum PolicyStep {
    Done(PolicyResult),
    /// The policy needs the store's answer to `query` and is to be resumed
    /// with it and with `request`.
    Lookup { request: Request, query: TokenQuery },
    /// The policy wants `record` written down and is then to be resumed with
    /// `request`. There is nothing to answer: it is resumed with `Ok(None)`.
    Report { request: Request, record: LogRecord },
}

pub enum PolicyStepView {
    Done(PolicyResultView),
    Lookup { request: RequestView, query: TokenQueryView },
    Report { request: RequestView, record: LogRecordView },
}

impl View for PolicyStep {
    type V = PolicyStepView;

    open spec fn view(&self) -> PolicyStepView {
        match self {
            PolicyStep::Done(result) => PolicyStepView::Done(result@),
            PolicyStep::Lookup { request, query } => PolicyStepView::Lookup {
                request: request@,
                query: query@,
            },
            PolicyStep::Report { request, record } => PolicyStepView::Report {
                request: request@,
                record: record@,
            },
        }
    }
}

/// The four names that tell a policy from every other.
pub struct PolicyIdentity {
    pub provider: Seq<char>,
    pub category: Seq<char>,
    pub name: Seq<char>,
    pub version: Seq<char>,
}

/// A named, versioned module that processes requests.
pub trait Policy {
    spec fn identity(&self) -> PolicyIdentity;

    /// The admin routes of the policy.
    spec fn routes(&self) -> Seq<RouteRegistrationView>;

    /// Whether requests run through the policy.
    spec fn in_chain(&self) -> bool;

    /// What the policy does with a request.
    spec fn step(&self, request: RequestView) -> PolicyStepView;

    /// What the policy decides when it is resumed.
    spec fn outcome(&self, request: RequestView, answer: LookupAnswerView) -> PolicyResultView;

    /// Returns the provider of the policy.
    fn provider(&self) -> (r: &'static str)
        ensures
            r@ == self.identity().provider,
    ;

    /// Returns the category of the policy.
    fn category(&self) -> (r: &'static str)
        ensures
            r@ == self.identity().category,
    ;

    /// Returns the name of the policy.
    fn name(&self) -> (r: &'static str)
        ensures
            r@ == self.identity().name,
    ;

    /// Returns the version of the policy.
    fn version(&self) -> (r: &'static str)
        ensures
            r@ == self.identity().version,
    ;

    /// The admin routes of the policy, each with a path below the policy's
    /// own place.
    fn register_routes(&self) -> (r: Vec<RouteRegistration>)
        ensures
            r.deep_view() == self.routes(),
    ;

    /// Whether the policy takes part in the chain. One that does not only
    /// contributes routes.
    fn processes_requests(&self) -> (r: bool)
        ensures
            r == self.in_chain(),
    ;

    /// Process the request.
    fn process(&self, request: Request) -> (r: PolicyStep)
        ensures
            r@ == self.step(request@),
    ;

    /// Go on with a request that `process` handed back with a question to
    /// the store or with a report.
    fn resume(&self, request: Request, answer: LookupAnswer) -> (r: PolicyResult)
        ensures
            r@ == self.outcome(request@, answer_view(answer)),
    ;
}

/// Builds policies of one kind from their configuration.
pub trait PolicyFactory {
    type PolicyType: Policy;

    type Config: View;

    /// The identifier under which the factory is registered.
    spec fn id() -> Seq<char>;

    /// The version that the identifier carries, if it carries one.
    spec fn version_name() -> Option<Seq<char>>;

    /// The typed configuration that untyped parameters stand for, if any.
    spec fn typed(parameters: ValueView) -> Option<<Self::Config as View>::V>;

    /// What is said against parameters that stand for no configuration.
    spec fn parse_error(parameters: ValueView) -> Seq<char>;

    /// Whether a configuration is one that a policy can be built from.
    spec fn acceptable(config: <Self::Config as View>::V) -> bool;

    /// Whether the databases that a configuration needs are there.
    spec fn supplied(config: <Self::Config as View>::V, databases: DatabasesConfig) -> bool;

    /// What is said against a configuration that no policy is built from.
    spec fn new_error(config: <Self::Config as View>::V, databases: DatabasesConfig) -> Seq<char>;

    /// Whether `policy` is the policy that the configuration describes.
    spec fn made(
        config: <Self::Config as View>::V,
        databases: DatabasesConfig,
        policy: Self::PolicyType,
    ) -> bool;

    /// Returns the policy ID.
    fn policy_id() -> (r: &'static str)
        ensures
            r@ == Self::id(),
    ;

    /// The version of the policy, where its identifier carries one.
    fn version() -> (r: Option<&'static str>)
        ensures
            r is Some <==> Self::version_name() is Some,
            r matches Some(version) ==> Self::version_name() == Some(version@),
    ;

    /// Gives untyped parameters the type of this factory's configuration.
    fn parse_config(parameters: &OpaqueValue) -> (r: Result<Self::Config, String>)
        ensures
            r is Ok <==> Self::typed(parameters@) is Some,
            r matches Ok(config) ==> Self::typed(parameters@) == Some(config@),
            r matches Err(message) ==> message@ == Self::parse_error(parameters@),
    ;

    /// Creates a new instance of the policy with the provided configuration.
    fn new(config: Self::Config, databases: &DatabasesConfig) -> (r: Result<
        Self::PolicyType,
        String,
    >)
        ensures
            r is Ok <==> Self::acceptable(config@) && Self::supplied(config@, *databases),
            r matches Ok(policy) ==> Self::made(config@, *databases, policy),
            r matches Err(message) ==> message@ == Self::new_error(config@, *databases),
    ;

    /// Validates the policy configuration.
    fn validate_config(config: &Self::Config) -> (r: Result<(), String>)
        ensures
            r is Ok <==> Self::acceptable(config@),
    ;
}

} // verus!
