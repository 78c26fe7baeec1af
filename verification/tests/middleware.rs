use bouncer::config::{DatabasesConfig, RedisConfig};
use bouncer::http::{Header, Request};
use bouncer::policy::middleware::{clear_bouncer_headers, ChainProgress, PolicyChainExt, PolicyLayer};
use bouncer::policy::providers::logging::{LoggingConfig, LoggingPolicy};
use bouncer::policy::registry::{instantiate, BuiltinPolicy};
use bouncer::policy::providers::bouncer::authentication::bearer::v1::{
    BearerAuthConfig, BearerAuthPolicyFactory,
};
use bouncer::policy::providers::bouncer::authorization::rbac::v1::{RbacConfig, RbacPolicyFactory};
use bouncer::policy::traits::{PolicyFactory, TokenQuery};
use bouncer::value::OpaqueValue;

fn header(name: &str, value: &str) -> Header {
    Header { name: name.to_string(), value: value.as_bytes().to_vec() }
}

fn request(path: &str, headers: Vec<Header>) -> Request {
    Request { method: "GET".to_string(), path: path.to_string(), query: String::new(), headers }
}

fn names(request: &Request) -> Vec<String> {
    request.headers.iter().map(|h| h.name.clone()).collect()
}

fn bearer_config() -> BearerAuthConfig {
    BearerAuthConfig {
        token: None,
        realm: None,
        db_provider: None,
        token_prefix: None,
        token_validation_query: None,
        collection: None,
    }
}

fn static_bearer(token: &str) -> BuiltinPolicy {
    let c = BearerAuthConfig { token: Some(token.to_string()), ..bearer_config() };
    BuiltinPolicy::BearerAuth(BearerAuthPolicyFactory::new(c, &DatabasesConfig::default()).ok().unwrap())
}

fn store_bearer(prefix: &str) -> BuiltinPolicy {
    let c = BearerAuthConfig {
        db_provider: Some("redis".to_string()),
        token_prefix: Some(prefix.to_string()),
        ..bearer_config()
    };
    let dbs = DatabasesConfig { redis: Some(RedisConfig::default()), ..Default::default() };
    BuiltinPolicy::BearerAuth(BearerAuthPolicyFactory::new(c, &dbs).ok().unwrap())
}

fn rbac(pattern: &str, role: &str) -> BuiltinPolicy {
    let c = RbacConfig { route_roles: vec![(pattern.to_string(), vec![role.to_string()])] };
    BuiltinPolicy::Rbac(RbacPolicyFactory::new(c, &DatabasesConfig::default()).ok().unwrap())
}

fn logging(level: &str) -> BuiltinPolicy {
    let c = LoggingConfig { log_level: level.to_string(), include_headers: false };
    BuiltinPolicy::Logging(<LoggingPolicy as PolicyFactory>::new(c, &DatabasesConfig::default()).ok().unwrap())
}

#[test]
fn gateway_headers_of_the_client_are_cleared() {
    let mut headers = vec![
        header("x-bouncer-role", "admin"),
        header("accept", "*/*"),
        header("X-Bouncer-Anything", "1"),
        header("x-bouncer", "kept"),
        header("X-BOUNCER-", "gone"),
        header("bouncer-token", "kept"),
    ];
    clear_bouncer_headers(&mut headers);
    let left: Vec<&str> = headers.iter().map(|h| h.name.as_str()).collect();
    assert_eq!(left, vec!["accept", "x-bouncer", "bouncer-token"]);
}

#[test]
fn an_empty_chain_forwards_the_scrubbed_request() {
    let layer: PolicyLayer<BuiltinPolicy> = PolicyLayer::new(vec![]);
    assert_eq!(layer.len(), 0);
    match layer.call(request("/p", vec![header("x-bouncer-role", "admin"), header("a", "1")])) {
        ChainProgress::Forward(r) => {
            assert_eq!(names(&r), vec!["a"]);
            assert_eq!(r.path, "/p");
            assert_eq!(r.method, "GET");
        }
        _ => panic!("the request was to be forwarded"),
    }
}

#[test]
fn policies_run_in_their_order() {
    // The store-backed bearer policy sets the role that the RBAC policy needs:
    // in this order the request passes, in the other RBAC answers first.
    let layer = vec![store_bearer("tok"), rbac("/admin/**", "admin")].into_layer();
    let held = match layer.call(request("/admin/x", vec![header("authorization", "Bearer t")])) {
        ChainProgress::Suspended { position: 0, request, query } => {
            assert!(matches!(query, TokenQuery::Key { key } if key == "tok:t"));
            request
        }
        _ => panic!("the store was to be asked"),
    };
    match layer.resume(0, held, Ok(Some("admin".to_string()))) {
        ChainProgress::Forward(r) => assert_eq!(names(&r), vec!["authorization", "x-bouncer-role"]),
        _ => panic!("the request was to be forwarded"),
    }
    let reversed = vec![rbac("/admin/**", "admin"), store_bearer("tok")].into_layer();
    match reversed.call(request("/admin/x", vec![header("authorization", "Bearer t")])) {
        ChainProgress::Respond(r) => {
            assert_eq!(r.status, 401);
            assert_eq!(r.body, b"No role header found".to_vec());
        }
        _ => panic!("the request was to be answered"),
    }
}

#[test]
fn a_policy_that_answers_ends_the_run() {
    let layer =
        vec![static_bearer("abc"), store_bearer("tok"), rbac("/**", "admin"), logging("info")]
            .into_layer();
    match layer.call(request("/x", vec![header("authorization", "Bearer wrong")])) {
        ChainProgress::Respond(r) => {
            assert_eq!(r.status, 401);
            assert_eq!(r.body, b"Unauthorized: Invalid token".to_vec());
            assert_eq!(r.headers.len(), 1);
        }
        _ => panic!("the first policy was to answer"),
    }
}

#[test]
fn no_policy_sees_a_gateway_header_of_the_client() {
    let layer = vec![rbac("/admin/**", "admin")].into_layer();
    match layer.call(request("/admin/x", vec![header("X-Bouncer-Role", "admin")])) {
        ChainProgress::Respond(r) => {
            assert_eq!(r.status, 401);
            assert_eq!(r.body, b"No role header found".to_vec());
        }
        _ => panic!("the header was to be gone"),
    }
    // Handed to the policy without the scrub, the same request passes.
    match layer.run_from(0, request("/admin/x", vec![header("X-Bouncer-Role", "admin")])) {
        ChainProgress::Forward(_) => {}
        _ => panic!("the request was to be forwarded"),
    }
}

#[test]
fn the_answer_of_the_store_can_end_the_run() {
    let layer = vec![store_bearer("tok"), rbac("/**", "admin")].into_layer();
    let held = match layer.call(request("/x", vec![header("authorization", "Bearer t")])) {
        ChainProgress::Suspended { request, .. } => request,
        _ => panic!("the store was to be asked"),
    };
    match layer.resume(0, held, Ok(None)) {
        ChainProgress::Respond(r) => {
            assert_eq!(r.status, 401);
            assert_eq!(r.body, b"Unauthorized: Invalid token".to_vec());
        }
        _ => panic!("the request was to be answered"),
    }
}

#[test]
fn the_chain_can_stop_more_than_once() {
    let layer = vec![store_bearer("a"), logging("info"), store_bearer("b")].into_layer();
    let held = match layer.call(request("/x", vec![header("authorization", "Bearer t")])) {
        ChainProgress::Suspended { position: 0, request, query } => {
            assert!(matches!(query, TokenQuery::Key { key } if key == "a:t"));
            request
        }
        _ => panic!("the first policy was to ask"),
    };
    let held = match layer.resume(0, held, Ok(Some("first".to_string()))) {
        ChainProgress::Reporting { position: 1, request, record } => {
            assert_eq!(record.target, "/x");
            request
        }
        _ => panic!("the second policy was to report"),
    };
    let held = match layer.resume(1, held, Ok(None)) {
        ChainProgress::Suspended { position: 2, request, query } => {
            assert!(matches!(query, TokenQuery::Key { key } if key == "b:t"));
            request
        }
        _ => panic!("the third policy was to ask"),
    };
    match layer.resume(2, held, Ok(Some("second".to_string()))) {
        ChainProgress::Forward(r) => {
            assert_eq!(names(&r), vec!["authorization", "x-bouncer-role"]);
            assert_eq!(r.headers[1].value, b"second".to_vec());
        }
        _ => panic!("the request was to be forwarded"),
    }
}

#[test]
fn a_run_can_start_in_the_middle() {
    let layer = vec![static_bearer("abc"), rbac("/**", "admin")].into_layer();
    match layer.run_from(1, request("/x", vec![header("x-bouncer-role", "admin")])) {
        ChainProgress::Forward(r) => assert_eq!(names(&r), vec!["x-bouncer-role"]),
        _ => panic!("the request was to be forwarded"),
    }
    assert!(matches!(layer.run_from(2, request("/x", vec![])), ChainProgress::Forward(_)));
}

#[test]
fn built_policies_run_in_a_layer() {
    let p = OpaqueValue::Mapping(vec![("token".to_string(), OpaqueValue::Text("abc".to_string()))]);
    let built = instantiate::<BearerAuthPolicyFactory>(&p, &DatabasesConfig::default()).ok().unwrap();
    let layer = PolicyLayer::new(vec![built]);
    assert_eq!(layer.len(), 1);
    let ok = layer.call(request("/", vec![header("authorization", "Bearer abc")]));
    assert!(matches!(ok, ChainProgress::Forward(_)));
}
