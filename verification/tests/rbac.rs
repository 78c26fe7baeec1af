use bouncer::config::DatabasesConfig;
use bouncer::http::{Header, Request};
use bouncer::policy::providers::bouncer::authorization::rbac::policy_id_with_version;
use bouncer::policy::providers::bouncer::authorization::rbac::v1::{
    access_verdict, rule_allows, RbacConfig, RbacPolicy, RbacPolicyFactory,
};
use bouncer::policy::traits::{Policy, PolicyFactory, PolicyResult, PolicyStep};
use bouncer::value::OpaqueValue;

fn rules(list: &[(&str, &[&str])]) -> RbacConfig {
    RbacConfig {
        route_roles: list
            .iter()
            .map(|(p, r)| (p.to_string(), r.iter().map(|x| x.to_string()).collect()))
            .collect(),
    }
}

fn policy(list: &[(&str, &[&str])]) -> RbacPolicy {
    RbacPolicyFactory::new(rules(list), &DatabasesConfig::default()).ok().unwrap()
}

fn request(path: &str, role: Option<&[u8]>) -> Request {
    let mut headers = vec![Header { name: "accept".to_string(), value: b"*/*".to_vec() }];
    if let Some(role) = role {
        headers.push(Header { name: "X-Bouncer-Role".to_string(), value: role.to_vec() });
    }
    Request { method: "GET".to_string(), path: path.to_string(), query: String::new(), headers }
}

fn answer(step: PolicyStep) -> Option<(u16, String)> {
    match step {
        PolicyStep::Done(PolicyResult::Terminate(r)) => {
            assert!(r.headers.is_empty());
            Some((r.status, String::from_utf8(r.body).unwrap()))
        }
        PolicyStep::Done(PolicyResult::Continue(_)) => None,
        _ => panic!("the policy hands nothing back"),
    }
}

#[test]
fn rbac_identifier_and_identity() {
    assert_eq!(policy_id_with_version("v1"), "@bouncer/authorization/rbac/v1");
    assert_eq!(RbacPolicyFactory::policy_id(), "@bouncer/authorization/rbac/v1");
    assert_eq!(RbacPolicyFactory::version(), Some("v1"));
    let p = policy(&[("/a", &["r"])]);
    assert_eq!(
        (p.provider(), p.category(), p.name(), p.version()),
        ("bouncer", "authorization", "rbac", "v1")
    );
}

#[test]
fn role_with_access_passes_unchanged() {
    let p = policy(&[("/admin/**", &["admin"]), ("/api/*", &["user", "admin"])]);
    match p.process(request("/admin/x", Some(b"admin"))) {
        PolicyStep::Done(PolicyResult::Continue(next)) => {
            assert_eq!(next.path, "/admin/x");
            assert_eq!(next.headers.len(), 2);
        }
        _ => panic!("the request was to go on"),
    }
    assert_eq!(answer(p.process(request("/api/items", Some(b"user")))), None);
    assert_eq!(answer(p.process(request("/admin/x/y/z", Some(b"admin")))), None);
}

#[test]
fn missing_role_is_unauthorized() {
    let p = policy(&[("/admin/**", &["admin"])]);
    assert_eq!(
        answer(p.process(request("/admin/x", None))),
        Some((401, "No role header found".to_string()))
    );
}

#[test]
fn role_that_is_no_text_is_unauthorized() {
    let p = policy(&[("/admin/**", &["admin"])]);
    assert_eq!(
        answer(p.process(request("/admin/x", Some(&[0xff, 0xfe])))),
        Some((401, "Invalid role header".to_string()))
    );
}

#[test]
fn role_without_access_is_forbidden() {
    let p = policy(&[("/admin/**", &["admin"]), ("/api/*", &["user", "admin"])]);
    let denied = Some((403, "Access denied".to_string()));
    assert_eq!(answer(p.process(request("/admin/x", Some(b"user")))), denied);
    assert_eq!(answer(p.process(request("/other", Some(b"admin")))), denied);
    assert_eq!(answer(p.process(request("/api/items", Some(b"guest")))), denied);
    assert_eq!(answer(p.process(request("/api/items", Some(b"Admin")))), denied);
}

#[test]
fn any_grant_suffices() {
    let p = policy(&[("/docs/*", &["writer"]), ("/docs/**", &["reader"]), ("/docs/a", &["x"])]);
    assert_eq!(answer(p.process(request("/docs/a", Some(b"reader")))), None);
    assert_eq!(answer(p.process(request("/docs/a", Some(b"writer")))), None);
    assert_eq!(answer(p.process(request("/docs/a", Some(b"x")))), None);
}

#[test]
fn star_stays_within_a_segment() {
    let p = policy(&[("/api/*", &["user"])]);
    assert!(p.has_access("/api/items", "user"));
    assert!(p.has_access("/api/", "user"));
    assert!(!p.has_access("/api/items/7", "user"));
    assert!(!p.has_access("/api", "user"));
    let q = policy(&[("/files/*.txt", &["user"]), ("/v?/x", &["user"]), ("/[ab]/y", &["user"])]);
    assert!(q.has_access("/files/a.txt", "user"));
    assert!(!q.has_access("/files/d/a.txt", "user"));
    assert!(q.has_access("/v1/x", "user"));
    assert!(!q.has_access("/v//x", "user"));
    assert!(q.has_access("/a/y", "user"));
    assert!(!q.has_access("/c/y", "user"));
}

#[test]
fn double_star_crosses_segments() {
    let p = policy(&[("/admin/**", &["admin"]), ("/a/**/z", &["admin"])]);
    assert!(p.has_access("/admin/x", "admin"));
    assert!(p.has_access("/admin/x/y", "admin"));
    assert!(p.has_access("/a/b/c/z", "admin"));
    assert!(p.has_access("/a/z", "admin"));
    assert!(!p.has_access("/a/b/c", "admin"));
    assert!(!p.has_access("/administrator", "admin"));
}

#[test]
fn patterns_are_case_sensitive() {
    let p = policy(&[("/Admin/*", &["admin"])]);
    assert!(p.has_access("/Admin/x", "admin"));
    assert!(!p.has_access("/admin/x", "admin"));
}

#[test]
fn resumed_policy_decides_afresh() {
    let p = policy(&[("/admin/**", &["admin"])]);
    match p.resume(request("/admin/x", Some(b"admin")), Ok(None)) {
        PolicyResult::Continue(_) => {}
        _ => panic!("the request was to go on"),
    }
    match p.resume(request("/admin/x", None), Ok(Some("admin".to_string()))) {
        PolicyResult::Terminate(r) => assert_eq!(r.status, 401),
        _ => panic!("the request was to be answered"),
    }
}

#[test]
fn a_rule_grants_only_on_match_and_role() {
    let roles = vec!["a".to_string(), "b".to_string()];
    assert!(rule_allows(true, &roles, "b"));
    assert!(!rule_allows(false, &roles, "b"));
    assert!(!rule_allows(true, &roles, "c"));
    assert!(!rule_allows(true, &Vec::new(), "a"));
}

#[test]
fn verdict_follows_access() {
    match access_verdict(request("/x", None), true) {
        PolicyResult::Continue(r) => assert_eq!(r.path, "/x"),
        _ => panic!("the request was to go on"),
    }
    match access_verdict(request("/x", None), false) {
        PolicyResult::Terminate(r) => {
            assert_eq!(r.status, 403);
            assert_eq!(r.body, b"Access denied".to_vec());
        }
        _ => panic!("the request was to be answered"),
    }
}

#[test]
fn configuration_needs_a_rule() {
    assert_eq!(
        RbacPolicyFactory::validate_config(&rules(&[])).unwrap_err(),
        "At least one route role mapping is required"
    );
    assert_eq!(
        RbacPolicyFactory::new(rules(&[]), &DatabasesConfig::default()).err().unwrap(),
        "At least one route must be configured"
    );
    assert!(RbacPolicyFactory::validate_config(&rules(&[("/a", &[])])).is_ok());
}

#[test]
fn malformed_pattern_is_named_with_what_is_wrong() {
    let c = rules(&[("/ok/*", &["a"]), ("a**b", &["a"]), ("abc[def", &["a"])]);
    assert_eq!(
        RbacPolicyFactory::validate_config(&c).unwrap_err(),
        "Invalid route pattern 'a**b': Pattern syntax error near position 0: recursive wildcards must form a single path component"
    );
    let c = rules(&[("abc[def", &["a"])]);
    assert_eq!(
        RbacPolicyFactory::new(c, &DatabasesConfig::default()).err().unwrap(),
        "Invalid route pattern 'abc[def': Pattern syntax error near position 3: invalid range pattern"
    );
    let c = rules(&[("/a/***", &["a"])]);
    assert_eq!(
        RbacPolicyFactory::validate_config(&c).unwrap_err(),
        "Invalid route pattern '/a/***': Pattern syntax error near position 5: wildcards are either regular `*` or recursive `**`"
    );
}

#[test]
fn rbac_parameters_are_given_their_type() {
    let p = OpaqueValue::Mapping(vec![(
        "route_roles".to_string(),
        OpaqueValue::Mapping(vec![
            (
                "/admin/**".to_string(),
                OpaqueValue::Sequence(vec![OpaqueValue::Text("admin".to_string())]),
            ),
            (
                "/api/*".to_string(),
                OpaqueValue::Sequence(vec![
                    OpaqueValue::Text("user".to_string()),
                    OpaqueValue::Text("admin".to_string()),
                ]),
            ),
        ]),
    )]);
    let c = RbacPolicyFactory::parse_config(&p).unwrap();
    assert_eq!(
        c.route_roles,
        vec![
            ("/admin/**".to_string(), vec!["admin".to_string()]),
            ("/api/*".to_string(), vec!["user".to_string(), "admin".to_string()]),
        ]
    );
    assert_eq!(
        RbacPolicyFactory::parse_config(&OpaqueValue::Mapping(vec![])).unwrap_err(),
        "route_roles: expected a mapping"
    );
    let bad = OpaqueValue::Mapping(vec![(
        "route_roles".to_string(),
        OpaqueValue::Mapping(vec![("/a".to_string(), OpaqueValue::Text("admin".to_string()))]),
    )]);
    assert_eq!(
        RbacPolicyFactory::parse_config(&bad).unwrap_err(),
        "route_roles: expected sequences of strings"
    );
}
