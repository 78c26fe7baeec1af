use bouncer::policy::routes::{PolicyRouteBuilder, PolicyRouter, RouteHandler, RouteRegistration};

#[test]
fn base_path_names_the_policy() {
    let builder = PolicyRouteBuilder::new("bouncer", "auth", "bearer", "v1");
    assert_eq!(builder.base_path(), "/_admin/bouncer/auth/bearer/v1");
}

#[test]
fn each_route_is_mounted_with_and_without_slash() {
    let mut router = PolicyRouter::new();
    let registrations = vec![
        RouteRegistration { relative_path: "keys".to_string(), handler: RouteHandler { id: 1 } },
        RouteRegistration { relative_path: "/stats/".to_string(), handler: RouteHandler { id: 2 } },
        RouteRegistration { relative_path: "".to_string(), handler: RouteHandler { id: 3 } },
    ];
    router.register_routes(registrations, "/_admin/p/c/n/v1");
    let routes: Vec<(String, u64)> =
        router.into_routes().into_iter().map(|r| (r.path, r.handler.id)).collect();
    assert_eq!(
        routes,
        vec![
            ("/_admin/p/c/n/v1/keys".to_string(), 1),
            ("/_admin/p/c/n/v1/keys/".to_string(), 1),
            ("/_admin/p/c/n/v1/stats".to_string(), 2),
            ("/_admin/p/c/n/v1/stats/".to_string(), 2),
            ("/_admin/p/c/n/v1".to_string(), 3),
            ("/_admin/p/c/n/v1/".to_string(), 3),
        ]
    );
}

#[test]
fn routes_of_later_policies_follow() {
    let mut router = PolicyRouter::new();
    router.register_routes(
        vec![RouteRegistration { relative_path: "a".to_string(), handler: RouteHandler { id: 1 } }],
        "/_admin/x",
    );
    router.register_routes(Vec::new(), "/_admin/y");
    router.register_routes(
        vec![RouteRegistration { relative_path: "b".to_string(), handler: RouteHandler { id: 2 } }],
        "/_admin/z",
    );
    let paths: Vec<String> = router.into_routes().into_iter().map(|r| r.path).collect();
    assert_eq!(paths, vec!["/_admin/x/a", "/_admin/x/a/", "/_admin/z/b", "/_admin/z/b/"]);
}
