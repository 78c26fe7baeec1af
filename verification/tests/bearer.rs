use bouncer::config::{DatabasesConfig, MongoConfig, PostgresConfig, RedisConfig};
use bouncer::database::DatabaseError;
use bouncer::http::{read_header_text, Header, Request};
use bouncer::policy::providers::bouncer::authentication::bearer::policy_id_with_version;
use bouncer::policy::providers::bouncer::authentication::bearer::v1::{
    BearerAuthConfig, BearerAuthPolicy, BearerAuthPolicyFactory, TokenDatabaseAdapter,
};
use bouncer::policy::traits::{
    LookupAnswer, Policy, PolicyFactory, PolicyResult, PolicyStep, TokenQuery,
};
use bouncer::value::OpaqueValue;

fn header(name: &str, value: &str) -> Header {
    Header { name: name.to_string(), value: value.as_bytes().to_vec() }
}

fn request(headers: Vec<Header>) -> Request {
    Request { method: "GET".to_string(), path: "/".to_string(), query: String::new(), headers }
}

fn config() -> BearerAuthConfig {
    BearerAuthConfig {
        token: None,
        realm: None,
        db_provider: None,
        token_prefix: None,
        token_validation_query: None,
        collection: None,
    }
}

fn static_policy(token: &str, realm: Option<&str>) -> BearerAuthPolicy {
    let c = BearerAuthConfig {
        token: Some(token.to_string()),
        realm: realm.map(|r| r.to_string()),
        ..config()
    };
    BearerAuthPolicyFactory::new(c, &DatabasesConfig::default()).ok().unwrap()
}

fn redis_policy() -> BearerAuthPolicy {
    let c = BearerAuthConfig {
        db_provider: Some("redis".to_string()),
        token_prefix: Some("tok".to_string()),
        ..config()
    };
    let dbs = DatabasesConfig { redis: Some(RedisConfig::default()), ..Default::default() };
    BearerAuthPolicyFactory::new(c, &dbs).ok().unwrap()
}

fn terminated(step: PolicyStep) -> (u16, Vec<(String, String)>, String) {
    match step {
        PolicyStep::Done(PolicyResult::Terminate(r)) => (
            r.status,
            r.headers
                .iter()
                .map(|h| (h.name.clone(), String::from_utf8(h.value.clone()).unwrap()))
                .collect(),
            String::from_utf8(r.body).unwrap(),
        ),
        _ => panic!("the request was not answered"),
    }
}

fn challenge(realm: &str) -> Vec<(String, String)> {
    vec![("www-authenticate".to_string(), format!("Bearer realm=\"{}\"", realm))]
}

#[test]
fn bearer_identifier_and_identity() {
    assert_eq!(policy_id_with_version("v1"), "@bouncer/authentication/bearer/v1");
    assert_eq!(BearerAuthPolicyFactory::policy_id(), "@bouncer/authentication/bearer/v1");
    assert_eq!(BearerAuthPolicyFactory::version(), Some("v1"));
    let p = static_policy("abc", None);
    assert_eq!(p.provider(), "bouncer");
    assert_eq!(p.category(), "authentication");
    assert_eq!(p.name(), "bearer");
    assert_eq!(p.version(), "v1");
    assert!(p.processes_requests());
    assert!(p.register_routes().is_empty());
}

#[test]
fn static_token_passes() {
    let p = static_policy("abc", None);
    let r = request(vec![header("Authorization", "Bearer abc"), header("accept", "*/*")]);
    match p.process(r) {
        PolicyStep::Done(PolicyResult::Continue(next)) => {
            assert_eq!(next.method, "GET");
            assert_eq!(next.path, "/");
            assert_eq!(next.headers.len(), 2);
            assert_eq!(next.headers[0].name, "Authorization");
            assert_eq!(next.headers[1].name, "accept");
        }
        _ => panic!("the request was to go on"),
    }
}

#[test]
fn missing_header_is_challenged() {
    let p = static_policy("abc", None);
    assert_eq!(
        terminated(p.process(request(vec![]))),
        (401, challenge("api"), "Unauthorized: Bearer token required".to_string())
    );
}

#[test]
fn configured_realm_is_named() {
    let p = static_policy("abc", Some("vault"));
    assert_eq!(
        terminated(p.process(request(vec![]))),
        (401, challenge("vault"), "Unauthorized: Bearer token required".to_string())
    );
}

#[test]
fn other_scheme_is_challenged() {
    let p = static_policy("abc", None);
    for value in ["Basic abc", "bearer abc", "Bearerabc", ""] {
        assert_eq!(
            terminated(p.process(request(vec![header("authorization", value)]))),
            (401, challenge("api"), "Unauthorized: Invalid Bearer token format".to_string())
        );
    }
}

#[test]
fn wrong_token_is_challenged() {
    let p = static_policy("abc", None);
    for value in ["Bearer abd", "Bearer ", "Bearer abc ", "Bearer  abc"] {
        assert_eq!(
            terminated(p.process(request(vec![header("authorization", value)]))),
            (401, challenge("api"), "Unauthorized: Invalid token".to_string())
        );
    }
}

#[test]
fn header_that_is_no_text_is_refused_without_challenge() {
    let p = static_policy("abc", None);
    let bad = Header { name: "authorization".to_string(), value: vec![b'B', 0xff, 0xfe] };
    assert_eq!(
        terminated(p.process(request(vec![bad]))),
        (401, vec![], "Invalid Authorization header format".to_string())
    );
}

#[test]
fn first_authorization_header_counts() {
    let p = static_policy("abc", None);
    let r = request(vec![header("AUTHORIZATION", "Bearer abc"), header("authorization", "nope")]);
    assert!(matches!(p.process(r), PolicyStep::Done(PolicyResult::Continue(_))));
    let r = request(vec![header("authorization", "nope"), header("authorization", "Bearer abc")]);
    assert_eq!(terminated(p.process(r)).0, 401);
}

#[test]
fn store_is_asked_for_the_prefixed_key() {
    let p = redis_policy();
    match p.process(request(vec![header("authorization", "Bearer t-1")])) {
        PolicyStep::Lookup { request, query } => {
            assert_eq!(request.headers.len(), 1);
            match query {
                TokenQuery::Key { key } => assert_eq!(key, "tok:t-1"),
                _ => panic!("a key-value store is asked for a key"),
            }
        }
        _ => panic!("the store was to be asked"),
    }
}

#[test]
fn sql_store_is_asked_with_statement_and_token() {
    let c = BearerAuthConfig {
        db_provider: Some("postgres".to_string()),
        token_validation_query: Some("SELECT role FROM t WHERE token = $1".to_string()),
        ..config()
    };
    let dbs = DatabasesConfig { postgres: Some(PostgresConfig::default()), ..Default::default() };
    let p = BearerAuthPolicyFactory::new(c, &dbs).ok().unwrap();
    match p.process(request(vec![header("authorization", "Bearer t-1")])) {
        PolicyStep::Lookup { query: TokenQuery::Sql { provider, statement, token }, .. } => {
            assert_eq!(provider, "postgres");
            assert_eq!(statement, "SELECT role FROM t WHERE token = $1");
            assert_eq!(token, "t-1");
        }
        _ => panic!("the SQL store was to be asked"),
    }
}

#[test]
fn document_store_is_asked_in_its_database_and_collection() {
    let c = BearerAuthConfig {
        db_provider: Some("mongo".to_string()),
        collection: Some("tokens".to_string()),
        ..config()
    };
    let mongo = MongoConfig {
        connection_uri: "mongodb://m".to_string(),
        database: "auth".to_string(),
        options: None,
    };
    let dbs = DatabasesConfig { mongo: Some(mongo), ..Default::default() };
    let p = BearerAuthPolicyFactory::new(c, &dbs).ok().unwrap();
    match p.process(request(vec![header("authorization", "Bearer t-1")])) {
        PolicyStep::Lookup { query: TokenQuery::Document { database, collection, token }, .. } => {
            assert_eq!(database, "auth");
            assert_eq!(collection, "tokens");
            assert_eq!(token, "t-1");
        }
        _ => panic!("the document store was to be asked"),
    }
}

#[test]
fn role_of_the_store_is_injected() {
    let p = redis_policy();
    let r = request(vec![
        header("authorization", "Bearer t"),
        header("X-Bouncer-Role", "stale"),
        header("accept", "*/*"),
    ]);
    match p.resume(r, Ok(Some("admin".to_string()))) {
        PolicyResult::Continue(next) => {
            let names: Vec<&str> = next.headers.iter().map(|h| h.name.as_str()).collect();
            assert_eq!(names, vec!["authorization", "accept", "x-bouncer-role"]);
            assert_eq!(next.headers[2].value, b"admin".to_vec());
        }
        _ => panic!("the request was to go on"),
    }
}

#[test]
fn role_that_no_header_can_hold_becomes_unknown() {
    let p = redis_policy();
    match p.resume(request(vec![]), Ok(Some("ad\nmin".to_string()))) {
        PolicyResult::Continue(next) => assert_eq!(next.headers[0].value, b"unknown".to_vec()),
        _ => panic!("the request was to go on"),
    }
    match p.resume(request(vec![]), Ok(Some("tab\tok é".to_string()))) {
        PolicyResult::Continue(next) => {
            assert_eq!(next.headers[0].value, "tab\tok é".as_bytes().to_vec())
        }
        _ => panic!("the request was to go on"),
    }
}

#[test]
fn unknown_token_and_failing_store_are_challenged_alike() {
    let p = redis_policy();
    let none = p.resume(request(vec![]), Ok(None));
    let failed = p.resume(
        request(vec![]),
        Err(DatabaseError::ConnectionError("redis://secret-host is down".to_string())),
    );
    for result in [none, failed] {
        assert_eq!(
            terminated(PolicyStep::Done(result)),
            (401, challenge("api"), "Unauthorized: Invalid token".to_string())
        );
    }
}

struct FixedStore(Option<String>);

impl TokenDatabaseAdapter for FixedStore {
    fn get_role_from_token(&self, query: &TokenQuery) -> LookupAnswer {
        match query {
            TokenQuery::Key { key } if key == "tok:good" => Ok(self.0.clone()),
            _ => Ok(None),
        }
    }
}

#[test]
fn process_with_asks_the_store_at_hand() {
    let p = redis_policy();
    let store = FixedStore(Some("user".to_string()));
    match p.process_with(&store, request(vec![header("authorization", "Bearer good")])) {
        PolicyResult::Continue(next) => {
            assert_eq!(next.headers.last().unwrap().name, "x-bouncer-role");
            assert_eq!(next.headers.last().unwrap().value, b"user".to_vec());
        }
        _ => panic!("the request was to go on"),
    }
    match p.process_with(&store, request(vec![header("authorization", "Bearer bad")])) {
        PolicyResult::Terminate(r) => assert_eq!(r.status, 401),
        _ => panic!("the request was to be answered"),
    }
    match p.process_with(&store, request(vec![])) {
        PolicyResult::Terminate(r) => assert_eq!(r.status, 401),
        _ => panic!("the request was to be answered"),
    }
}

fn invalid(c: BearerAuthConfig) -> String {
    BearerAuthPolicyFactory::validate_config(&c).unwrap_err()
}

#[test]
fn exactly_one_of_token_and_store() {
    assert_eq!(invalid(config()), "Either token or db_provider must be specified");
    let both = BearerAuthConfig {
        token: Some("t".to_string()),
        db_provider: Some("redis".to_string()),
        token_prefix: Some("p".to_string()),
        ..config()
    };
    assert_eq!(invalid(both), "Only one of token and db_provider may be specified");
    let only_token = BearerAuthConfig { token: Some("t".to_string()), ..config() };
    assert!(BearerAuthPolicyFactory::validate_config(&only_token).is_ok());
}

#[test]
fn each_store_needs_its_field() {
    let with = |provider: &str| BearerAuthConfig { db_provider: Some(provider.to_string()), ..config() };
    assert_eq!(
        invalid(with("postgres")),
        "token_validation_query is required when using PostgreSQL database"
    );
    assert_eq!(
        invalid(with("mysql")),
        "token_validation_query is required when using MySQL database"
    );
    assert_eq!(invalid(with("redis")), "token_prefix is required when using Redis database");
    assert_eq!(invalid(with("mongo")), "collection is required when using MongoDB database");
    assert_eq!(invalid(with("sqlite")), "Unsupported database provider: sqlite");
    let ok = BearerAuthConfig { collection: Some("c".to_string()), ..with("mongo") };
    assert!(BearerAuthPolicyFactory::validate_config(&ok).is_ok());
}

#[test]
fn new_needs_the_database_to_be_configured() {
    let c = BearerAuthConfig {
        db_provider: Some("redis".to_string()),
        token_prefix: Some("tok".to_string()),
        ..config()
    };
    let e = BearerAuthPolicyFactory::new(c, &DatabasesConfig::default()).err().unwrap();
    assert_eq!(
        e,
        "Database configuration error: Redis database configuration is required but not provided"
    );
    let e = BearerAuthPolicyFactory::new(config(), &DatabasesConfig::default()).err().unwrap();
    assert_eq!(e, "Either token or db_provider must be specified");
}

#[test]
fn bearer_parameters_are_given_their_type() {
    let p = OpaqueValue::Mapping(vec![
        ("token".to_string(), OpaqueValue::Text("abc".to_string())),
        ("realm".to_string(), OpaqueValue::Null),
        ("extra".to_string(), OpaqueValue::Bool(true)),
    ]);
    let c = BearerAuthPolicyFactory::parse_config(&p).unwrap();
    assert_eq!(c.token, Some("abc".to_string()));
    assert_eq!(c.realm, None);
    assert_eq!(c.db_provider, None);
    let bad = OpaqueValue::Mapping(vec![("realm".to_string(), OpaqueValue::Bool(true))]);
    assert_eq!(
        BearerAuthPolicyFactory::parse_config(&bad).unwrap_err(),
        "realm: expected a string"
    );
    assert_eq!(
        BearerAuthPolicyFactory::parse_config(&OpaqueValue::Null).unwrap_err(),
        "expected a mapping"
    );
}

#[test]
fn header_outside_printable_ascii_is_refused_without_challenge() {
    let p = static_policy("t\u{f6}ken", None);
    for value in ["Bearer t\u{f6}ken", "Bearer abc\u{1}", "Bearer abc\u{7f}", "Bearer a\nb"] {
        assert_eq!(
            terminated(p.process(request(vec![header("authorization", value)]))),
            (401, vec![], "Invalid Authorization header format".to_string())
        );
    }
}

#[test]
fn tab_may_stand_in_a_token() {
    let p = static_policy("a\tb ~", None);
    match p.process(request(vec![header("authorization", "Bearer a\tb ~")])) {
        PolicyStep::Done(PolicyResult::Continue(r)) => assert_eq!(r.headers.len(), 1),
        _ => panic!("the request did not pass"),
    }
}

#[test]
fn header_values_as_texts() {
    assert_eq!(read_header_text(&b"Bearer abc".to_vec()), Some("Bearer abc".to_string()));
    assert_eq!(read_header_text(&b"".to_vec()), Some(String::new()));
    assert_eq!(read_header_text(&b"a\tb~ ".to_vec()), Some("a\tb~ ".to_string()));
    assert_eq!(read_header_text(&vec![0x41, 0x7f]), None);
    assert_eq!(read_header_text(&vec![0x41, 0x1f]), None);
    assert_eq!(read_header_text(&vec![0xc3, 0xb6]), None);
    assert_eq!(read_header_text(&vec![0xff]), None);
}
