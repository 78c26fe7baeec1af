//! The admin routes that policies contribute, and the paths they are mounted at.

use crate::text::{starts_with, trim_end, trim_end_matches};
use vstd::prelude::*;
use vstd::string::*;

verus! {

/// The place under which the admin routes of one policy are mounted.
pub struct PolicyRouteBuilder {
    base_path: String,
}

/// `/_admin/<provider>/<category>/<name>/<version>`
pub open spec fn admin_base(
    provider: Seq<char>,
    category: Seq<char>,
    name: Seq<char>,
    version: Seq<char>,
) -> Seq<char> {
    "/_admin/"@ + provider + "/"@ + category + "/"@ + name + "/"@ + version
}

impl PolicyRouteBuilder {
    /// The path under which the routes are mounted.
    pub closed spec fn path(&self) -> Seq<char> {
        self.base_path@
    }

    /// The place of the policy with these four names.
    pub fn new(provider: &str, category: &str, policy_name: &str, version: &str) -> (r: Self)
        ensures
            r.path() == admin_base(provider@, category@, policy_name@, version@),
    {
        let base_path = "/_admin/".to_owned().concat(provider).concat("/").concat(category).concat(
            "/",
        ).concat(policy_name).concat("/").concat(version);
        PolicyRouteBuilder { base_path }
    }

    /// The path under which the routes are mounted.
    pub fn base_path(&self) -> (r: &str)
        ensures
            r@ == self.path(),
    {
        self.base_path.as_str()
    }
}

/// Stands for the code that serves a route. The gateway only carries it from
/// the policy to the router; whoever mounts the routes knows what it names.
#[derive(Debug, Clone, Copy, PartialEq, Eq, Structural)]
pub struct RouteHandler {
    pub id: u64,
}

/// A route as a policy declares it: a path below the policy's own place.
pub struct RouteRegistration {
    pub relative_path: String,
    pub handler: RouteHandler,
}

pub struct RouteRegistrationView {
    pub relative_path: Seq<char>,
    pub handler: RouteHandler,
}

impl View for RouteRegistration {
    type V = RouteRegistrationView;

    open spec fn view(&self) -> RouteRegistrationView {
        RouteRegistrationView { relative_path: self.relative_path@, handler: self.handler }
    }
}

impl DeepView for RouteRegistration {
    type V = RouteRegistrationView;

    open spec fn deep_view(&self) -> RouteRegistrationView {
        self@
    }
}

/// A route as it is mounted: its full path and what serves it.
pub struct Route {
    pub path: String,
    pub handler: RouteHandler,
}

pub struct RouteView {
    pub path: Seq<char>,
    pub handler: RouteHandler,
}

impl View for Route {
    type V = RouteView;

    open spec fn view(&self) -> RouteView {
        RouteView { path: self.path@, handler: self.handler }
    }
}

impl DeepView for Route {
    type V = RouteView;

    open spec fn deep_view(&self) -> RouteView {
        self@
    }
}

/// The full path of a route, without a slash at its end: the base, then the
/// relative path, which is given a slash at its start if it has none.
pub open spec fn mounted_path(base: Seq<char>, relative: Seq<char>) -> Seq<char> {
    if "/"@.is_prefix_of(relative) {
        trim_end(base + relative, '/')
    } else {
        trim_end(base + "/"@ + relative, '/')
    }
}

/// The routes that are mounted for the registrations of one policy: for each
/// registration, in order, its full path and the same path with a slash at
/// its end, both with the registration's handler.
pub open spec fn mounted_routes(registrations: Seq<RouteRegistrationView>, base: Seq<char>) -> Seq<
    RouteView,
>
    decreases registrations.len(),
{
    if registrations.len() == 0 {
        Seq::empty()
    } else {
        let last = registrations.last();
        let path = mounted_path(base, last.relative_path);
        mounted_routes(registrations.drop_last(), base).push(
            RouteView { path, handler: last.handler },
        ).push(RouteView { path: path + "/"@, handler: last.handler })
    }
}

/// Collects the admin routes of all policies.
pub struct PolicyRouter {
    routes: Vec<Route>,
}

impl View for PolicyRouter {
    type V = Seq<RouteView>;

    closed spec fn view(&self) -> Seq<RouteView> {
        self.routes.deep_view()
    }
}

impl PolicyRouter {
    /// A router without routes.
    pub fn new() -> (r: Self)
        ensures
            r@ == Seq::<RouteView>::empty(),
    {
        let r = PolicyRouter { routes: Vec::new() };
        assert(r.routes.deep_view() == Seq::<RouteView>::empty());
        r
    }

    /// Mounts the routes of one policy under `base_path`, after those that
    /// are there already.
    pub fn register_routes(&mut self, registrations: Vec<RouteRegistration>, base_path: &str)
        ensures
            final(self)@ == old(self)@ + mounted_routes(registrations.deep_view(), base_path@),
    {
        let ghost start = self@;
        let ghost all = registrations.deep_view();
        let mut i: usize = 0;
        assert(all.take(0) == Seq::<RouteRegistrationView>::empty());
        assert(start + mounted_routes(all.take(0), base_path@) == start);
        while i < registrations.len()
            invariant
                i <= registrations.len(),
                all == registrations.deep_view(),
                self@ == start + mounted_routes(all.take(i as int), base_path@),
            decreases registrations.len() - i,
        {
            let registration = &registrations[i];
            let full_path = if starts_with(registration.relative_path.as_str(), "/") {
                base_path.to_owned().concat(registration.relative_path.as_str())
            } else {
                base_path.to_owned().concat("/").concat(registration.relative_path.as_str())
            };
            let path_without_slash = trim_end_matches(full_path.as_str(), '/');
            let path_with_slash = path_without_slash.clone().concat("/");
            let ghost before = self.routes.deep_view();
            let first = Route { path: path_without_slash, handler: registration.handler };
            let second = Route { path: path_with_slash, handler: registration.handler };
            self.routes.push(first);
            self.routes.push(second);
            proof {
                assert(self.routes.deep_view() == before.push(first@).push(second@));
                assert(all.take(i + 1).drop_last() == all.take(i as int));
                assert(all.take(i + 1).last() == registration@);
                let earlier = mounted_routes(all.take(i as int), base_path@);
                assert(start + earlier.push(first@).push(second@) == (start + earlier).push(
                    first@,
                ).push(second@));
            }
            i += 1;
        }
        assert(all.take(all.len() as int) == all);
    }

    /// The routes in the order in which they were mounted.
    pub fn into_routes(self) -> (routes: Vec<Route>)
        ensures
            routes.deep_view() == self@,
    {
        self.routes
    }
}

} // verus!
