//! Bearer authentication, version 1.
//!
//! A request must carry `Authorization: Bearer <token>`. The token is held
//! against one configured token, or a token store is asked for the role
//! that belongs to it; the role then travels on in `x-bouncer-role`.

use crate::config::{DatabaseType, DatabasesConfig};
use crate::database::{is_configured, provider_kind, validate_database_config};
use crate::http::{
    bytes_of, first_value, header_text, header_value, is_header_text, is_value_text,
    read_header_text, set_header, with_header, Header, HeaderView, Request, RequestView, Response,
    ResponseView,
};
use crate::policy::routes::{RouteRegistration, RouteRegistrationView};
use crate::policy::traits::{
    answer_view, LookupAnswer, LookupAnswerView, Policy, PolicyFactory, PolicyIdentity,
    PolicyResult, PolicyResultView, PolicyStep, PolicyStepView, TokenQuery, TokenQueryView,
};
use crate::text::{equal, strip_prefix};
use crate::value::{optional_text, read_optional_text, OpaqueValue, ValueView};
use vstd::prelude::*;
use vstd::string::*;
use vstd::utf8::encode_utf8;

verus! {

/// Configuration of the bearer policy: one token, or a store that knows many.
#[derive(Debug, Clone)]
pub struct BearerAuthConfig {
    /// The one token that is accepted. Without it a store decides.
    pub token: Option<String>,
    /// The realm named in the challenge; `api` where none is given.
    pub realm: Option<String>,
    /// The store that knows the tokens: `postgres`, `mysql`, `redis` or `mongo`.
    pub db_provider: Option<String>,
    /// What stands before the token in the key of a key-value store.
    pub token_prefix: Option<String>,
    /// The statement that yields the role of a token in an SQL database.
    pub token_validation_query: Option<String>,
    /// The collection of a document store that holds the tokens.
    pub collection: Option<String>,
}

pub struct BearerAuthConfigView {
    pub token: Option<Seq<char>>,
    pub realm: Option<Seq<char>>,
    pub db_provider: Option<Seq<char>>,
    pub token_prefix: Option<Seq<char>>,
    pub token_validation_query: Option<Seq<char>>,
    pub collection: Option<Seq<char>>,
}

impl View for BearerAuthConfig {
    type V = BearerAuthConfigView;

    open spec fn view(&self) -> BearerAuthConfigView {
        BearerAuthConfigView {
            token: self.token.deep_view(),
            realm: self.realm.deep_view(),
            db_provider: self.db_provider.deep_view(),
            token_prefix: self.token_prefix.deep_view(),
            token_validation_query: self.token_validation_query.deep_view(),
            collection: self.collection.deep_view(),
        }
    }
}

/// A token store as the policy sees it: the one thing it can do is answer a
/// question about a token. Nothing is promised of the answer.
pub trait TokenDatabaseAdapter {
    fn get_role_from_token(&self, query: &TokenQuery) -> LookupAnswer;
}

/// How a store is asked for the role of a token.
pub enum TokenStore {
    Sql { provider: String, statement: String },
    KeyValue { prefix: String },
    Document { database: String, collection: String },
}

pub enum TokenStoreView {
    Sql { provider: Seq<char>, statement: Seq<char> },
    KeyValue { prefix: Seq<char> },
    Document { database: Seq<char>, collection: Seq<char> },
}

impl View for TokenStore {
    type V = TokenStoreView;

    open spec fn view(&self) -> TokenStoreView {
        match self {
            TokenStore::Sql { provider, statement } => TokenStoreView::Sql {
                provider: provider@,
                statement: statement@,
            },
            TokenStore::KeyValue { prefix } => TokenStoreView::KeyValue { prefix: prefix@ },
            TokenStore::Document { database, collection } => TokenStoreView::Document {
                database: database@,
                collection: collection@,
            },
        }
    }
}

impl DeepView for TokenStore {
    type V = TokenStoreView;

    open spec fn deep_view(&self) -> TokenStoreView {
        self@
    }
}

/// The question that a store is asked about `token`. A key-value store is
/// asked for the key `<prefix>:<token>`.
pub open spec fn query_for(store: TokenStoreView, token: Seq<char>) -> TokenQueryView {
    match store {
        TokenStoreView::Sql { provider, statement } => TokenQueryView::Sql {
            provider,
            statement,
            token,
        },
        TokenStoreView::KeyValue { prefix } => TokenQueryView::Key { key: prefix + ":"@ + token },
        TokenStoreView::Document { database, collection } => TokenQueryView::Document {
            database,
            collection,
            token,
        },
    }
}

impl TokenStore {
    /// The question that this store is asked about `token`.
    pub fn query(&self, token: String) -> (r: TokenQuery)
        ensures
            r@ == query_for(self@, token@),
    {
        match self {
            TokenStore::Sql { provider, statement } => TokenQuery::Sql {
                provider: provider.clone(),
                statement: statement.clone(),
                token,
            },
            TokenStore::KeyValue { prefix } => TokenQuery::Key {
                key: prefix.clone().concat(":").concat(token.as_str()),
            },
            TokenStore::Document { database, collection } => TokenQuery::Document {
                database: database.clone(),
                collection: collection.clone(),
                token,
            },
        }
    }
}

/// The realm named in challenges.
pub open spec fn realm_of(config: BearerAuthConfigView) -> Seq<char> {
    match config.realm {
        Some(realm) => realm,
        None => "api"@,
    }
}

/// The answer to a request that is not authenticated: status 401, the
/// challenge `WWW-Authenticate: Bearer realm="<realm>"`, and `body`.
pub open spec fn unauthorized(realm: Seq<char>, body: Seq<char>) -> ResponseView {
    ResponseView {
        status: 401,
        headers: seq![
            HeaderView {
                name: "www-authenticate"@,
                value: encode_utf8("Bearer realm=\""@ + realm + "\""@),
            },
        ],
        body: encode_utf8(body),
    }
}

/// The role as it is written into the header: the role itself, or
/// `unknown` where the role holds a character that no header value may hold.
pub open spec fn header_role(role: Seq<char>) -> Seq<char> {
    if is_value_text(role) {
        role
    } else {
        "unknown"@
    }
}

/// What the policy does with a request.
///
/// Without an `Authorization` header, or with one that does not begin with
/// `Bearer `, the request is answered with the challenge; with one that
/// holds anything but tabs and printable ASCII, with 401 and no challenge. What follows `Bearer ` is the token.
/// With a store the policy asks it about the token. Without one the request
/// goes on unchanged if the token is the configured one, and is answered
/// with the challenge otherwise.
pub open spec fn bearer_step(
    config: BearerAuthConfigView,
    store: Option<TokenStoreView>,
    request: RequestView,
) -> PolicyStepView {
    let realm = realm_of(config);
    match first_value(request.headers, "authorization"@) {
        None => PolicyStepView::Done(
            PolicyResultView::Terminate(
                unauthorized(realm, "Unauthorized: Bearer token required"@),
            ),
        ),
        Some(value) => if header_text(value) is None {
            PolicyStepView::Done(
                PolicyResultView::Terminate(
                    ResponseView {
                        status: 401,
                        headers: Seq::empty(),
                        body: encode_utf8("Invalid Authorization header format"@),
                    },
                ),
            )
        } else if !"Bearer "@.is_prefix_of(header_text(value)->Some_0) {
            PolicyStepView::Done(
                PolicyResultView::Terminate(
                    unauthorized(realm, "Unauthorized: Invalid Bearer token format"@),
                ),
            )
        } else {
            let token = header_text(value)->Some_0.skip("Bearer "@.len() as int);
            match store {
                Some(store) => PolicyStepView::Lookup { request, query: query_for(store, token) },
                None => if config.token == Some(token) {
                    PolicyStepView::Done(PolicyResultView::Continue(request))
                } else {
                    PolicyStepView::Done(
                        PolicyResultView::Terminate(
                            unauthorized(realm, "Unauthorized: Invalid token"@),
                        ),
                    )
                },
            }
        },
    }
}

/// What the policy decides once the store has answered: with a role the
/// request goes on with `x-bouncer-role` set to it; with no role, and where
/// the store failed, the request is answered with the challenge, which says
/// nothing of the store.
pub open spec fn bearer_outcome(
    config: BearerAuthConfigView,
    request: RequestView,
    answer: LookupAnswerView,
) -> PolicyResultView {
    match answer {
        Ok(Some(role)) => PolicyResultView::Continue(
            RequestView {
                headers: with_header(
                    request.headers,
                    "x-bouncer-role"@,
                    encode_utf8(header_role(role)),
                ),
                ..request
            },
        ),
        _ => PolicyResultView::Terminate(
            unauthorized(realm_of(config), "Unauthorized: Invalid token"@),
        ),
    }
}

/// The stores that the policy knows, and the field that each of them needs.
pub open spec fn required_field(provider: Seq<char>) -> Option<Seq<char>> {
    if provider == "postgres"@ || provider == "mysql"@ {
        Some("token_validation_query"@)
    } else if provider == "redis"@ {
        Some("token_prefix"@)
    } else if provider == "mongo"@ {
        Some("collection"@)
    } else {
        None
    }
}

/// Whether the field that the store `provider` needs is configured.
pub open spec fn has_required_field(config: BearerAuthConfigView, provider: Seq<char>) -> bool {
    if provider == "postgres"@ || provider == "mysql"@ {
        config.token_validation_query is Some
    } else if provider == "redis"@ {
        config.token_prefix is Some
    } else if provider == "mongo"@ {
        config.collection is Some
    } else {
        false
    }
}

/// A configuration is acceptable where exactly one of the token and the
/// store is given, the store is one that the policy knows, and the field
/// that this store needs is there.
pub open spec fn bearer_acceptable(config: BearerAuthConfigView) -> bool {
    match config.db_provider {
        None => config.token is Some,
        Some(provider) => config.token is None && has_required_field(config, provider),
    }
}

/// How the store `provider` is called in messages.
pub open spec fn store_name(provider: Seq<char>) -> Seq<char> {
    match provider_kind(provider) {
        Some(kind) => crate::database::product_name(kind),
        None => provider,
    }
}

/// Why a configuration is not acceptable; `None` where it is.
pub open spec fn bearer_config_error(config: BearerAuthConfigView) -> Option<Seq<char>> {
    match config.db_provider {
        None => if config.token is None {
            Some("Either token or db_provider must be specified"@)
        } else {
            None
        },
        Some(provider) => if config.token is Some {
            Some("Only one of token and db_provider may be specified"@)
        } else {
            match required_field(provider) {
                None => Some("Unsupported database provider: "@ + provider),
                Some(field) => if has_required_field(config, provider) {
                    None
                } else {
                    Some(
                        field + " is required when using "@ + store_name(provider)
                            + " database"@,
                    )
                },
            }
        },
    }
}

/// Whether the database that the configuration names is configured.
pub open spec fn bearer_supplied(config: BearerAuthConfigView, databases: DatabasesConfig) -> bool {
    match config.db_provider {
        None => true,
        Some(provider) => match provider_kind(provider) {
            Some(kind) => is_configured(databases, kind),
            None => false,
        },
    }
}

/// The store of a policy built from an acceptable configuration.
pub open spec fn planned_store(
    config: BearerAuthConfigView,
    databases: DatabasesConfig,
) -> Option<TokenStoreView> {
    match config.db_provider {
        None => None,
        Some(provider) => if provider == "postgres"@ || provider == "mysql"@ {
            Some(
                TokenStoreView::Sql {
                    provider,
                    statement: config.token_validation_query->Some_0,
                },
            )
        } else if provider == "redis"@ {
            Some(TokenStoreView::KeyValue { prefix: config.token_prefix->Some_0 })
        } else {
            Some(
                TokenStoreView::Document {
                    database: databases.mongo->Some_0.database@,
                    collection: config.collection->Some_0,
                },
            )
        },
    }
}

/// The configuration that untyped parameters stand for: a mapping in which
/// each of the six fields is a text, is null, or is left out.
pub open spec fn bearer_typed(parameters: ValueView) -> Option<BearerAuthConfigView> {
    if !(parameters is Mapping) {
        None
    } else {
        match (
            optional_text(parameters, "token"@),
            optional_text(parameters, "realm"@),
            optional_text(parameters, "db_provider"@),
            optional_text(parameters, "token_prefix"@),
            optional_text(parameters, "token_validation_query"@),
            optional_text(parameters, "collection"@),
        ) {
            (
                Some(token),
                Some(realm),
                Some(db_provider),
                Some(token_prefix),
                Some(token_validation_query),
                Some(collection),
            ) => Some(
                BearerAuthConfigView {
                    token,
                    realm,
                    db_provider,
                    token_prefix,
                    token_validation_query,
                    collection,
                },
            ),
            _ => None,
        }
    }
}

/// What is said against parameters that stand for no configuration: that
/// they are no mapping, or the first of the six fields that is no text.
pub open spec fn bearer_parse_error(parameters: ValueView) -> Seq<char> {
    if !(parameters is Mapping) {
        "expected a mapping"@
    } else if optional_text(parameters, "token"@) is None {
        "token: expected a string"@
    } else if optional_text(parameters, "realm"@) is None {
        "realm: expected a string"@
    } else if optional_text(parameters, "db_provider"@) is None {
        "db_provider: expected a string"@
    } else if optional_text(parameters, "token_prefix"@) is None {
        "token_prefix: expected a string"@
    } else if optional_text(parameters, "token_validation_query"@) is None {
        "token_validation_query: expected a string"@
    } else {
        "collection: expected a string"@
    }
}

/// Policy implementation with optional database support.
pub struct BearerAuthPolicy {
    config: BearerAuthConfig,
    store: Option<TokenStore>,
}

impl BearerAuthPolicy {
    /// The configuration that the policy was built from.
    pub closed spec fn config(&self) -> BearerAuthConfigView {
        self.config@
    }

    /// The store that the policy asks, if it asks one.
    pub closed spec fn store(&self) -> Option<TokenStoreView> {
        self.store.deep_view()
    }

    /// The store that the policy asks, for whoever is to open it.
    pub fn token_store(&self) -> (r: &Option<TokenStore>)
        ensures
            r.deep_view() == self.store(),
    {
        &self.store
    }

    fn challenge(&self, body: &str) -> (r: Response)
        ensures
            r@ == unauthorized(realm_of(self.config()), body@),
    {
        let realm = match &self.config.realm {
            Some(realm) => realm.as_str(),
            None => "api",
        };
        let value = "Bearer realm=\"".to_owned().concat(realm).concat("\"");
        let header = Header { name: "www-authenticate".to_owned(), value: bytes_of(value.as_str()) };
        let mut headers: Vec<Header> = Vec::new();
        headers.push(header);
        assert(headers.deep_view() == seq![header@]);
        Response { status: 401, headers, body: bytes_of(body) }
    }

    /// Processes a request to its end with a store at hand: the store is
    /// asked where the policy has a question, and whatever it answers is
    /// what the policy decides on.
    pub fn process_with<A: TokenDatabaseAdapter>(&self, adapter: &A, request: Request) -> (r:
        PolicyResult)
        ensures
            self.step(request@) matches PolicyStepView::Done(result) ==> r@ == result,
            self.step(request@) matches PolicyStepView::Lookup { request: held, query }
                ==> exists|answer: LookupAnswerView|
                r@ == #[trigger] bearer_outcome(self.config(), held, answer),
    {
        let ghost inbound = request@;
        match self.process(request) {
            PolicyStep::Done(result) => {
                assert(self.step(inbound) is Done);
                result
            },
            PolicyStep::Lookup { request: held, query } => {
                let answer = adapter.get_role_from_token(&query);
                let ghost seen = answer_view(answer);
                let ghost kept = held@;
                let result = self.resume(held, answer);
                assert(self.step(inbound)->Lookup_request == kept);
                assert(result@ == bearer_outcome(self.config(), kept, seen));
                result
            },
            PolicyStep::Report { request: held, record } => {
                assert(!(self.step(inbound) is Report));
                vstd::pervasive::unreached()
            },
        }
    }
}

impl Policy for BearerAuthPolicy {
    open spec fn identity(&self) -> PolicyIdentity {
        PolicyIdentity {
            provider: "bouncer"@,
            category: "authentication"@,
            name: "bearer"@,
            version: "v1"@,
        }
    }

    open spec fn routes(&self) -> Seq<RouteRegistrationView> {
        Seq::empty()
    }

    open spec fn in_chain(&self) -> bool {
        true
    }

    open spec fn step(&self, request: RequestView) -> PolicyStepView {
        bearer_step(self.config(), self.store(), request)
    }

    open spec fn outcome(&self, request: RequestView, answer: LookupAnswerView) -> PolicyResultView {
        bearer_outcome(self.config(), request, answer)
    }

    fn provider(&self) -> (r: &'static str) {
        "bouncer"
    }

    fn category(&self) -> (r: &'static str) {
        "authentication"
    }

    fn name(&self) -> (r: &'static str) {
        "bearer"
    }

    fn version(&self) -> (r: &'static str) {
        "v1"
    }

    fn register_routes(&self) -> (r: Vec<RouteRegistration>) {
        let r: Vec<RouteRegistration> = Vec::new();
        assert(r.deep_view() == Seq::<RouteRegistrationView>::empty());
        r
    }

    fn processes_requests(&self) -> (r: bool) {
        true
    }

    fn process(&self, request: Request) -> (r: PolicyStep) {
        let value = match header_value(&request.headers, "authorization") {
            Some(value) => value,
            None => {
                return PolicyStep::Done(
                    PolicyResult::Terminate(
                        self.challenge("Unauthorized: Bearer token required"),
                    ),
                );
            },
        };
        let text = match read_header_text(&value) {
            Some(text) => text,
            None => {
                return PolicyStep::Done(
                    PolicyResult::Terminate(
                        Response::plain(401, "Invalid Authorization header format"),
                    ),
                );
            },
        };
        let token = match strip_prefix(text.as_str(), "Bearer ") {
            Some(token) => token,
            None => {
                return PolicyStep::Done(
                    PolicyResult::Terminate(
                        self.challenge("Unauthorized: Invalid Bearer token format"),
                    ),
                );
            },
        };
        match &self.store {
            Some(store) => PolicyStep::Lookup { request, query: store.query(token) },
            None => {
                let is_authenticated = match &self.config.token {
                    Some(expected) => equal(token.as_str(), expected.as_str()),
                    None => false,
                };
                if is_authenticated {
                    PolicyStep::Done(PolicyResult::Continue(request))
                } else {
                    PolicyStep::Done(
                        PolicyResult::Terminate(self.challenge("Unauthorized: Invalid token")),
                    )
                }
            },
        }
    }

    fn resume(&self, request: Request, answer: LookupAnswer) -> (r: PolicyResult) {
        match answer {
            Ok(Some(role)) => {
                let value = if is_header_text(role.as_str()) {
                    bytes_of(role.as_str())
                } else {
                    bytes_of("unknown")
                };
                let headers = set_header(&request.headers, "x-bouncer-role", value);
                PolicyResult::Continue(
                    Request {
                        method: request.method,
                        path: request.path,
                        query: request.query,
                        headers,
                    },
                )
            },
            _ => PolicyResult::Terminate(self.challenge("Unauthorized: Invalid token")),
        }
    }
}

/// Policy factory for creating bearer auth policies.
pub struct BearerAuthPolicyFactory;

/// Why no policy is built; `None` where one is. A configuration that is not
/// acceptable fails as `validate_config` says, an acceptable one whose
/// database is not configured with the words of the database's own error.
pub open spec fn bearer_new_error(
    config: BearerAuthConfigView,
    databases: DatabasesConfig,
) -> Option<Seq<char>> {
    match bearer_config_error(config) {
        Some(message) => Some(message),
        None => match config.db_provider {
            None => None,
            Some(provider) => match crate::database::database_verdict(databases, provider) {
                Ok(()) => None,
                Err(error) => Some(crate::database::errors::error_text(error)),
            },
        },
    }
}

/// An acceptable configuration is one without an error, and the other way round.
pub proof fn lemma_bearer_config_error(config: BearerAuthConfigView)
    ensures
        bearer_config_error(config) is None <==> bearer_acceptable(config),
{
}

impl PolicyFactory for BearerAuthPolicyFactory {
    type PolicyType = BearerAuthPolicy;

    type Config = BearerAuthConfig;

    open spec fn id() -> Seq<char> {
        "@bouncer/authentication/bearer/v1"@
    }

    open spec fn version_name() -> Option<Seq<char>> {
        Some("v1"@)
    }

    open spec fn typed(parameters: ValueView) -> Option<BearerAuthConfigView> {
        bearer_typed(parameters)
    }

    open spec fn acceptable(config: BearerAuthConfigView) -> bool {
        bearer_acceptable(config)
    }

    open spec fn supplied(config: BearerAuthConfigView, databases: DatabasesConfig) -> bool {
        bearer_supplied(config, databases)
    }

    open spec fn parse_error(parameters: ValueView) -> Seq<char> {
        bearer_parse_error(parameters)
    }

    open spec fn new_error(config: BearerAuthConfigView, databases: DatabasesConfig) -> Seq<char> {
        bearer_new_error(config, databases)->Some_0
    }

    open spec fn made(
        config: BearerAuthConfigView,
        databases: DatabasesConfig,
        policy: BearerAuthPolicy,
    ) -> bool {
        policy.config() == config && policy.store() == planned_store(config, databases)
    }

    fn policy_id() -> (r: &'static str) {
        super::policy_id_with_version("v1")
    }

    fn version() -> (r: Option<&'static str>) {
        Some("v1")
    }

    fn parse_config(parameters: &OpaqueValue) -> (r: Result<BearerAuthConfig, String>) {
        match parameters {
            OpaqueValue::Mapping(_) => {},
            _ => {
                return Err("expected a mapping".to_owned());
            },
        }
        let token = match read_optional_text(parameters, "token") {
            Some(value) => value,
            None => {
                return Err("token: expected a string".to_owned());
            },
        };
        let realm = match read_optional_text(parameters, "realm") {
            Some(value) => value,
            None => {
                return Err("realm: expected a string".to_owned());
            },
        };
        let db_provider = match read_optional_text(parameters, "db_provider") {
            Some(value) => value,
            None => {
                return Err("db_provider: expected a string".to_owned());
            },
        };
        let token_prefix = match read_optional_text(parameters, "token_prefix") {
            Some(value) => value,
            None => {
                return Err("token_prefix: expected a string".to_owned());
            },
        };
        let token_validation_query = match read_optional_text(
            parameters,
            "token_validation_query",
        ) {
            Some(value) => value,
            None => {
                return Err(
                    "token_validation_query: expected a string".to_owned(),
                );
            },
        };
        let collection = match read_optional_text(parameters, "collection") {
            Some(value) => value,
            None => {
                return Err("collection: expected a string".to_owned());
            },
        };
        Ok(
            BearerAuthConfig {
                token,
                realm,
                db_provider,
                token_prefix,
                token_validation_query,
                collection,
            },
        )
    }

    fn new(config: BearerAuthConfig, databases: &DatabasesConfig) -> (r: Result<
        BearerAuthPolicy,
        String,
    >)
        ensures
            r matches Err(message) ==> Some(message@) == bearer_new_error(config@, *databases),
    {
        match Self::validate_config(&config) {
            Err(message) => {
                return Err(message);
            },
            Ok(()) => {},
        }
        let store = match &config.db_provider {
            None => None,
            Some(provider) => {
                match validate_database_config(databases, provider.as_str()) {
                    Err(error) => {
                        return Err(error.to_string());
                    },
                    Ok(()) => {},
                }
                if equal(provider.as_str(), "postgres") || equal(provider.as_str(), "mysql") {
                    match &config.token_validation_query {
                        Some(statement) => Some(
                            TokenStore::Sql {
                                provider: provider.clone(),
                                statement: statement.clone(),
                            },
                        ),
                        None => None,
                    }
                } else if equal(provider.as_str(), "redis") {
                    match &config.token_prefix {
                        Some(prefix) => Some(TokenStore::KeyValue { prefix: prefix.clone() }),
                        None => None,
                    }
                } else {
                    match (&databases.mongo, &config.collection) {
                        (Some(mongo), Some(collection)) => Some(
                            TokenStore::Document {
                                database: mongo.database.clone(),
                                collection: collection.clone(),
                            },
                        ),
                        _ => None,
                    }
                }
            },
        };
        Ok(BearerAuthPolicy { config, store })
    }

    fn validate_config(config: &BearerAuthConfig) -> (r: Result<(), String>)
        ensures
            r matches Err(message) ==> Some(message@) == bearer_config_error(config@),
    {
        let provider = match &config.db_provider {
            None => {
                if config.token.is_none() {
                    return Err("Either token or db_provider must be specified".to_owned());
                }
                return Ok(());
            },
            Some(provider) => provider.as_str(),
        };
        if config.token.is_some() {
            return Err("Only one of token and db_provider may be specified".to_owned());
        }
        let kind = match DatabaseType::from_provider(provider) {
            Some(kind) => kind,
            None => {
                return Err("Unsupported database provider: ".to_owned().concat(provider));
            },
        };
        let (field, present) = match kind {
            DatabaseType::Postgres => (
                "token_validation_query",
                config.token_validation_query.is_some(),
            ),
            DatabaseType::Mysql => (
                "token_validation_query",
                config.token_validation_query.is_some(),
            ),
            DatabaseType::Redis => ("token_prefix", config.token_prefix.is_some()),
            DatabaseType::Mongo => ("collection", config.collection.is_some()),
        };
        if present {
            Ok(())
        } else {
            Err(
                field.to_owned().concat(" is required when using ").concat(kind.product()).concat(
                    " database",
                ),
            )
        }
    }
}

} // verus!
