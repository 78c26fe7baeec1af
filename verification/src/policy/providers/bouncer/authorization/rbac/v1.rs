//! Role-based access control, version 1.
//!
//! Each rule names a glob pattern and the roles that may use the paths it
//! matches. A request is let pass where some rule matches its path and holds
//! the role that the request carries in `x-bouncer-role`.

use crate::config::DatabasesConfig;
use crate::http::{
    decode_text, first_value, header_value, Request, RequestView, Response, ResponseView,
};
use crate::policy::routes::{RouteRegistration, RouteRegistrationView};
use crate::policy::traits::{
    LookupAnswer, LookupAnswerView, Policy, PolicyFactory, PolicyIdentity, PolicyResult,
    PolicyResultView, PolicyStep, PolicyStepView,
};
use crate::text::contains_text;
use crate::value::{
    field, lemma_mapping_view, read_text_list, text_list, OpaqueValue, ValueView,
};
use vstd::prelude::*;
use vstd::string::*;
use vstd::utf8::{decode_utf8, encode_utf8, valid_utf8};

verus! {

/// What `glob::Pattern::new` says against a pattern: the text of its error,
/// or `None` where the pattern is well-formed.
pub uninterp spec fn glob_pattern_error(pattern: Seq<char>) -> Option<Seq<char>>;

/// Whether a well-formed pattern matches a path, as `glob::Pattern` decides
/// it. With `literal_separator` the path separator is matched by itself and
/// by `**` only; without it `*`, `?` and `[...]` match it as well.
pub uninterp spec fn glob_matches(
    pattern: Seq<char>,
    path: Seq<char>,
    literal_separator: bool,
) -> bool;

/// `glob::Pattern::new`, for its verdict alone: the text of the error that it
/// returns for `pattern`, or `None` where it returns a pattern.
#[verifier::external_body]
fn pattern_error(pattern: &str) -> (r: Option<String>)
    ensures
        r.deep_view() == glob_pattern_error(pattern@),
{
    match glob::Pattern::new(pattern) {
        Ok(_) => None,
        Err(error) => Some(error.to_string()),
    }
}

/// `glob::Pattern::matches_with` on the compiled `pattern`, with the options
/// of `glob::MatchOptions::new` (case-sensitive, no special treatment of a
/// leading dot) but for `require_literal_separator`, which is as given. The
/// separator is `/` (glob takes it from `std::path`, which knows a second
/// one on Windows only).
#[verifier::external_body]
fn pattern_matches(pattern: &str, path: &str, literal_separator: bool) -> (r: bool)
    requires
        glob_pattern_error(pattern@) is None,
    ensures
        r == glob_matches(pattern@, path@, literal_separator),
{
    let mut options = glob::MatchOptions::new();
    options.require_literal_separator = literal_separator;
    match glob::Pattern::new(pattern) {
        Ok(compiled) => compiled.matches_with(path, options),
        Err(_) => false,
    }
}

/// Map of route patterns to allowed roles.
/// Route patterns use glob syntax: `/api/*`, `/users/**`.
#[derive(Debug, Clone)]
pub struct RbacConfig {
    pub route_roles: Vec<(String, Vec<String>)>,
}

pub struct RbacConfigView {
    pub route_roles: Seq<(Seq<char>, Seq<Seq<char>>)>,
}

impl View for RbacConfig {
    type V = RbacConfigView;

    open spec fn view(&self) -> RbacConfigView {
        RbacConfigView { route_roles: self.route_roles.deep_view() }
    }
}

/// Whether every pattern of the rules is well-formed.
pub open spec fn patterns_valid(rules: Seq<(Seq<char>, Seq<Seq<char>>)>) -> bool {
    forall|i: int| 0 <= i < rules.len() ==> glob_pattern_error(#[trigger] rules[i].0) is None
}

/// A rule grants access where its pattern matches the path and the role is
/// one of its roles. In a pattern `*` stays within a segment of the path,
/// and `**` crosses segments.
pub open spec fn rule_grants(
    rule: (Seq<char>, Seq<Seq<char>>),
    path: Seq<char>,
    role: Seq<char>,
) -> bool {
    glob_matches(rule.0, path, true) && rule.1.contains(role)
}

/// Access is granted where any rule grants it.
pub open spec fn grants(
    rules: Seq<(Seq<char>, Seq<Seq<char>>)>,
    path: Seq<char>,
    role: Seq<char>,
) -> bool {
    exists|i: int| 0 <= i < rules.len() && rule_grants(#[trigger] rules[i], path, role)
}

/// The request is answered with `status` and `body`, and no header.
pub open spec fn refusal(status: u16, body: Seq<char>) -> PolicyResultView {
    PolicyResultView::Terminate(
        ResponseView { status, headers: Seq::empty(), body: encode_utf8(body) },
    )
}

/// What the policy decides: 401 where the request carries no role or one
/// that is no text, 403 where no rule grants the role access to the path;
/// otherwise the request goes on unchanged.
pub open spec fn rbac_verdict(config: RbacConfigView, request: RequestView) -> PolicyResultView {
    match first_value(request.headers, "x-bouncer-role"@) {
        None => refusal(401, "No role header found"@),
        Some(value) => if !valid_utf8(value) {
            refusal(401, "Invalid role header"@)
        } else if grants(config.route_roles, request.path, decode_utf8(value)) {
            PolicyResultView::Continue(request)
        } else {
            refusal(403, "Access denied"@)
        },
    }
}

/// Whether a rule whose pattern matched or did not match grants `role` access.
pub fn rule_allows(matched: bool, roles: &Vec<String>, role: &str) -> (r: bool)
    ensures
        r == (matched && roles.deep_view().contains(role@)),
{
    matched && contains_text(roles, role)
}

/// The decision on a request whose role is known to have access or not.
pub fn access_verdict(request: Request, has_access: bool) -> (r: PolicyResult)
    ensures
        r@ == if has_access {
            PolicyResultView::Continue(request@)
        } else {
            refusal(403, "Access denied"@)
        },
{
    if has_access {
        PolicyResult::Continue(request)
    } else {
        PolicyResult::Terminate(Response::plain(403, "Access denied"))
    }
}

/// Lets a request pass where a rule grants its role access to its path.
pub struct RbacPolicy {
    config: RbacConfig,
}

impl RbacPolicy {
    /// The rules of the policy.
    pub closed spec fn config(&self) -> RbacConfigView {
        self.config@
    }

    #[verifier::type_invariant]
    spec fn well_formed(&self) -> bool {
        patterns_valid(self.config@.route_roles)
    }

    /// Whether some rule grants `role` access to `path`.
    pub fn has_access(&self, path: &str, role: &str) -> (r: bool)
        ensures
            r == grants(self.config().route_roles, path@, role@),
    {
        proof {
            use_type_invariant(self);
        }
        let rules = &self.config.route_roles;
        let mut i: usize = 0;
        while i < rules.len()
            invariant
                i <= rules.len(),
                rules.deep_view() == self.config().route_roles,
                patterns_valid(rules.deep_view()),
                forall|j: int| 0 <= j < i ==> !rule_grants(#[trigger] rules.deep_view()[j], path@, role@),
            decreases rules.len() - i,
        {
            assert(rules.deep_view()[i as int] == (rules[i as int].0@, rules[i as int].1.deep_view()));
            assert(glob_pattern_error(rules.deep_view()[i as int].0) is None);
            let matched = pattern_matches(rules[i].0.as_str(), path, true);
            if rule_allows(matched, &rules[i].1, role) {
                assert(rule_grants(rules.deep_view()[i as int], path@, role@));
                return true;
            }
            i += 1;
        }
        false
    }

    fn decide(&self, request: Request) -> (r: PolicyResult)
        ensures
            r@ == rbac_verdict(self.config(), request@),
    {
        let value = match header_value(&request.headers, "x-bouncer-role") {
            Some(value) => value,
            None => {
                return PolicyResult::Terminate(Response::plain(401, "No role header found"));
            },
        };
        let role = match decode_text(&value) {
            Some(role) => role,
            None => {
                return PolicyResult::Terminate(Response::plain(401, "Invalid role header"));
            },
        };
        let has_access = self.has_access(request.path.as_str(), role.as_str());
        access_verdict(request, has_access)
    }
}

impl Policy for RbacPolicy {
    open spec fn identity(&self) -> PolicyIdentity {
        PolicyIdentity {
            provider: "bouncer"@,
            category: "authorization"@,
            name: "rbac"@,
            version: "v1"@,
        }
    }

    open spec fn routes(&self) -> Seq<RouteRegistrationView> {
        Seq::empty()
    }

    open spec fn in_chain(&self) -> bool {
        true
    }

    open spec fn step(&self, request: RequestView) -> PolicyStepView {
        PolicyStepView::Done(rbac_verdict(self.config(), request))
    }

    /// The policy asks the store nothing. Resumed all the same, it decides
    /// as it would on seeing the request for the first time.
    open spec fn outcome(&self, request: RequestView, answer: LookupAnswerView) -> PolicyResultView {
        rbac_verdict(self.config(), request)
    }

    fn provider(&self) -> (r: &'static str) {
        "bouncer"
    }

    fn category(&self) -> (r: &'static str) {
        "authorization"
    }

    fn name(&self) -> (r: &'static str) {
        "rbac"
    }

    fn version(&self) -> (r: &'static str) {
        "v1"
    }

    fn register_routes(&self) -> (r: Vec<RouteRegistration>) {
        let r: Vec<RouteRegistration> = Vec::new();
        assert(r.deep_view() == Seq::<RouteRegistrationView>::empty());
        r
    }

    fn processes_requests(&self) -> (r: bool) {
        true
    }

    fn process(&self, request: Request) -> (r: PolicyStep) {
        PolicyStep::Done(self.decide(request))
    }

    fn resume(&self, request: Request, answer: LookupAnswer) -> (r: PolicyResult) {
        self.decide(request)
    }
}

/// Policy factory for creating RBAC policies.
#[derive(Default)]
pub struct RbacPolicyFactory;

/// A configuration is acceptable where it has at least one rule and every
/// pattern is well-formed.
pub open spec fn rbac_acceptable(config: RbacConfigView) -> bool {
    config.route_roles.len() > 0 && patterns_valid(config.route_roles)
}

/// Where the first rule with a malformed pattern stands; the number of rules
/// where every pattern is well-formed.
pub open spec fn first_invalid(rules: Seq<(Seq<char>, Seq<Seq<char>>)>) -> int
    decreases rules.len(),
{
    if rules.len() == 0 || glob_pattern_error(rules[0].0) is Some {
        0
    } else {
        1 + first_invalid(rules.drop_first())
    }
}

/// What is said against the pattern of a rule.
pub open spec fn pattern_complaint(pattern: Seq<char>) -> Seq<char> {
    "Invalid route pattern '"@ + pattern + "': "@ + glob_pattern_error(pattern)->Some_0
}

/// The configuration that untyped parameters stand for: a mapping whose
/// field `route_roles` is a mapping from patterns to sequences of texts.
pub open spec fn rbac_typed(parameters: ValueView) -> Option<RbacConfigView> {
    match field(parameters, "route_roles"@) {
        Some(ValueView::Mapping(entries)) => if forall|i: int|
            0 <= i < entries.len() ==> text_list(#[trigger] entries[i].1) is Some {
            Some(
                RbacConfigView {
                    route_roles: Seq::new(
                        entries.len() as nat,
                        |i: int| (entries[i].0, text_list(entries[i].1)->Some_0),
                    ),
                },
            )
        } else {
            None
        },
        _ => None,
    }
}

/// What is said against parameters that stand for no configuration.
pub open spec fn rbac_parse_error(parameters: ValueView) -> Seq<char> {
    match field(parameters, "route_roles"@) {
        Some(ValueView::Mapping(entries)) => "route_roles: expected sequences of strings"@,
        _ => "route_roles: expected a mapping"@,
    }
}

/// What is said against a configuration that is not acceptable: that it has
/// no rule, or what is wrong with the first malformed pattern.
pub open spec fn rbac_config_error(config: RbacConfigView, empty: Seq<char>) -> Seq<char> {
    if config.route_roles.len() == 0 {
        empty
    } else {
        pattern_complaint(config.route_roles[first_invalid(config.route_roles)].0)
    }
}

/// Looks for the first rule whose pattern is malformed.
fn check_patterns(rules: &Vec<(String, Vec<String>)>) -> (r: Result<(), String>)
    ensures
        r is Ok <==> patterns_valid(rules.deep_view()),
        r matches Err(message) ==> {
            let i = first_invalid(rules.deep_view());
            0 <= i < rules.len() && message@ == pattern_complaint(rules.deep_view()[i].0)
        },
{
    let mut i: usize = 0;
    assert(rules.deep_view().skip(0) == rules.deep_view());
    while i < rules.len()
        invariant
            i <= rules.len(),
            forall|j: int| 0 <= j < i ==> glob_pattern_error(#[trigger] rules.deep_view()[j].0) is None,
            first_invalid(rules.deep_view()) == i + first_invalid(rules.deep_view().skip(i as int)),
        decreases rules.len() - i,
    {
        assert(rules.deep_view()[i as int] == (rules[i as int].0@, rules[i as int].1.deep_view()));
        assert(rules.deep_view().skip(i as int)[0] == rules.deep_view()[i as int]);
        match pattern_error(rules[i].0.as_str()) {
            Some(error) => {
                return Err(
                    "Invalid route pattern '".to_owned().concat(rules[i].0.as_str()).concat(
                        "': ",
                    ).concat(error.as_str()),
                );
            },
            None => {},
        }
        assert(rules.deep_view().skip(i as int).drop_first() == rules.deep_view().skip(i + 1));
        i += 1;
    }
    Ok(())
}

impl PolicyFactory for RbacPolicyFactory {
    type PolicyType = RbacPolicy;

    type Config = RbacConfig;

    open spec fn id() -> Seq<char> {
        "@bouncer/authorization/rbac/v1"@
    }

    open spec fn version_name() -> Option<Seq<char>> {
        Some("v1"@)
    }

    open spec fn typed(parameters: ValueView) -> Option<RbacConfigView> {
        rbac_typed(parameters)
    }

    open spec fn acceptable(config: RbacConfigView) -> bool {
        rbac_acceptable(config)
    }

    open spec fn supplied(config: RbacConfigView, databases: DatabasesConfig) -> bool {
        true
    }

    open spec fn parse_error(parameters: ValueView) -> Seq<char> {
        rbac_parse_error(parameters)
    }

    open spec fn new_error(config: RbacConfigView, databases: DatabasesConfig) -> Seq<char> {
        rbac_config_error(config, "At least one route must be configured"@)
    }

    open spec fn made(config: RbacConfigView, databases: DatabasesConfig, policy: RbacPolicy) -> bool {
        policy.config() == config
    }

    fn policy_id() -> (r: &'static str) {
        super::policy_id_with_version("v1")
    }

    fn version() -> (r: Option<&'static str>) {
        Some("v1")
    }

    fn parse_config(parameters: &OpaqueValue) -> (r: Result<RbacConfig, String>) {
        let entries = match parameters.get("route_roles") {
            Some(OpaqueValue::Mapping(entries)) => entries,
            _ => {
                return Err("route_roles: expected a mapping".to_owned());
            },
        };
        let ghost held = entries.deep_view();
        proof {
            lemma_mapping_view(*entries);
        }
        let mut route_roles: Vec<(String, Vec<String>)> = Vec::new();
        let mut i: usize = 0;
        while i < entries.len()
            invariant
                i <= entries.len(),
                route_roles.len() == i,
                held == entries.deep_view(),
                field(parameters@, "route_roles"@) == Some(ValueView::Mapping(held)),
                forall|j: int| 0 <= j < i ==> text_list(#[trigger] held[j].1) is Some,
                forall|j: int|
                    0 <= j < i ==> #[trigger] route_roles.deep_view()[j] == (
                        held[j].0,
                        text_list(held[j].1)->Some_0,
                    ),
            decreases entries.len() - i,
        {
            assert(held[i as int] == (entries[i as int].0@, entries[i as int].1@));
            let roles = match read_text_list(&entries[i].1) {
                Some(roles) => roles,
                None => {
                    assert(text_list(held[i as int].1) is None);
                    return Err(
                        "route_roles: expected sequences of strings".to_owned(),
                    );
                },
            };
            let ghost before = route_roles.deep_view();
            let rule = (entries[i].0.clone(), roles);
            route_roles.push(rule);
            assert(route_roles.deep_view() == before.push((rule.0@, rule.1.deep_view())));
            i += 1;
        }
        let config = RbacConfig { route_roles };
        assert(config@.route_roles =~= rbac_typed(parameters@)->Some_0.route_roles);
        Ok(config)
    }

    fn new(config: RbacConfig, databases: &DatabasesConfig) -> (r: Result<RbacPolicy, String>)
    {
        if config.route_roles.len() == 0 {
            assert(config@.route_roles.len() == 0);
            return Err("At least one route must be configured".to_owned());
        }
        assert(config@.route_roles.len() > 0);
        match check_patterns(&config.route_roles) {
            Err(message) => Err(message),
            Ok(()) => Ok(RbacPolicy { config }),
        }
    }

    fn validate_config(config: &RbacConfig) -> (r: Result<(), String>)
        ensures
            r matches Err(message) ==> message@ == rbac_config_error(
                config@,
                "At least one route role mapping is required"@,
            ),
    {
        if config.route_roles.len() == 0 {
            assert(config@.route_roles.len() == 0);
            return Err("At least one route role mapping is required".to_owned());
        }
        assert(config@.route_roles.len() > 0);
        check_patterns(&config.route_roles)
    }
}

} // verus!
