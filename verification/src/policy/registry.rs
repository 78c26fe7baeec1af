//! The registry: which factory builds the policy of which identifier, and
//! how the chain and the admin routes are built from the configured policies.

use crate::config::{DatabasesConfig, PolicyConfig, PolicyConfigView};
use crate::policy::providers::bouncer::authentication::bearer::v1::{
    BearerAuthPolicy, BearerAuthPolicyFactory,
};
use crate::policy::providers::bouncer::authorization::rbac::v1::{RbacPolicy, RbacPolicyFactory};
use crate::http::{Request, RequestView};
use crate::policy::providers::logging::LoggingPolicy;
use crate::policy::routes::{
    admin_base, mounted_routes, PolicyRouter, RouteRegistration, RouteRegistrationView, RouteView,
};
use crate::policy::traits::{
    LookupAnswer, LookupAnswerView, Policy, PolicyFactory, PolicyIdentity, PolicyResult,
    PolicyResultView, PolicyStep, PolicyStepView,
};
use crate::text::{equal, pieces, split, starts_with};
use crate::value::{OpaqueValue, ValueView};
use vstd::prelude::*;
use vstd::string::*;

verus! {

/// An identifier names a version where it has at least four parts between
/// slashes and the last of them begins with `v`:
/// `@<provider>/<category>/<name>/v<version>`.
pub open spec fn is_versioned(id: Seq<char>) -> bool {
    let parts = pieces(id, '/');
    parts.len() >= 4 && "v"@.is_prefix_of(parts.last())
}

/// Whether an identifier names a version.
pub fn is_versioned_id(id: &str) -> (r: bool)
    ensures
        r == is_versioned(id@),
{
    let parts = split(id, '/');
    assert(parts.deep_view().len() == parts.len());
    if parts.len() < 4 {
        return false;
    }
    assert(parts.deep_view().last() == parts[parts.len() - 1]@);
    starts_with(parts[parts.len() - 1].as_str(), "v")
}

/// What is said against an identifier without a version.
pub open spec fn unversioned_complaint(id: Seq<char>) -> Seq<char> {
    "Invalid policy ID: "@ + id
        + ". All policies must specify a version (e.g., @provider/category/name/v1)"@
}

/// A factory whose configuration type is hidden: it builds a policy from
/// untyped parameters.
pub trait AnyFactory {
    type Built: Policy;

    /// The identifier of the policies that the factory builds.
    spec fn name(&self) -> Seq<char>;

    /// Whether the factory builds a policy from these parameters.
    spec fn accepts(&self, parameters: ValueView, databases: DatabasesConfig) -> bool;

    /// What the factory says against parameters that it builds nothing from.
    spec fn complaint(&self, parameters: ValueView, databases: DatabasesConfig) -> Seq<char>;

    /// Whether `policy` is what the factory builds from these parameters.
    spec fn makes(
        &self,
        parameters: ValueView,
        databases: DatabasesConfig,
        policy: Self::Built,
    ) -> bool;

    fn policy_id(&self) -> (r: &'static str)
        ensures
            r@ == self.name(),
    ;

    fn build(&self, parameters: &OpaqueValue, databases: &DatabasesConfig) -> (r: Result<
        Self::Built,
        String,
    >)
        ensures
            r is Ok <==> self.accepts(parameters@, *databases),
            r matches Ok(policy) ==> self.makes(parameters@, *databases, policy),
            r matches Err(message) ==> message@ == self.complaint(parameters@, *databases),
    ;
}

/// Whether the factory `F` builds a policy from untyped parameters: they
/// stand for a configuration, the configuration is acceptable, and the
/// databases that it needs are there.
pub open spec fn builds<F: PolicyFactory>(
    parameters: ValueView,
    databases: DatabasesConfig,
) -> bool {
    match F::typed(parameters) {
        Some(config) => F::acceptable(config) && F::supplied(config, databases),
        None => false,
    }
}

/// What `F` says against parameters that it builds nothing from.
pub open spec fn build_error<F: PolicyFactory>(
    parameters: ValueView,
    databases: DatabasesConfig,
) -> Seq<char> {
    match F::typed(parameters) {
        Some(config) => F::new_error(config, databases),
        None => "Failed to parse config: "@ + F::parse_error(parameters),
    }
}

/// Gives the parameters the type of the factory's configuration and builds
/// the policy from it.
pub fn instantiate<F: PolicyFactory>(parameters: &OpaqueValue, databases: &DatabasesConfig) -> (r:
    Result<F::PolicyType, String>)
    ensures
        r is Ok <==> builds::<F>(parameters@, *databases),
        r matches Ok(policy) ==> F::made(F::typed(parameters@)->Some_0, *databases, policy),
        r matches Err(message) ==> message@ == build_error::<F>(parameters@, *databases),
{
    match F::parse_config(parameters) {
        Err(detail) => Err("Failed to parse config: ".to_owned().concat(detail.as_str())),
        Ok(config) => F::new(config, databases),
    }
}

/// The policies that come with the gateway.
pub enum BuiltinPolicy {
    BearerAuth(BearerAuthPolicy),
    Rbac(RbacPolicy),
    Logging(LoggingPolicy),
}

impl Policy for BuiltinPolicy {
    open spec fn identity(&self) -> PolicyIdentity {
        match self {
            BuiltinPolicy::BearerAuth(policy) => policy.identity(),
            BuiltinPolicy::Rbac(policy) => policy.identity(),
            BuiltinPolicy::Logging(policy) => policy.identity(),
        }
    }

    open spec fn routes(&self) -> Seq<RouteRegistrationView> {
        match self {
            BuiltinPolicy::BearerAuth(policy) => policy.routes(),
            BuiltinPolicy::Rbac(policy) => policy.routes(),
            BuiltinPolicy::Logging(policy) => policy.routes(),
        }
    }

    open spec fn in_chain(&self) -> bool {
        match self {
            BuiltinPolicy::BearerAuth(policy) => policy.in_chain(),
            BuiltinPolicy::Rbac(policy) => policy.in_chain(),
            BuiltinPolicy::Logging(policy) => policy.in_chain(),
        }
    }

    open spec fn step(&self, request: RequestView) -> PolicyStepView {
        match self {
            BuiltinPolicy::BearerAuth(policy) => policy.step(request),
            BuiltinPolicy::Rbac(policy) => policy.step(request),
            BuiltinPolicy::Logging(policy) => policy.step(request),
        }
    }

    open spec fn outcome(&self, request: RequestView, answer: LookupAnswerView) -> PolicyResultView {
        match self {
            BuiltinPolicy::BearerAuth(policy) => policy.outcome(request, answer),
            BuiltinPolicy::Rbac(policy) => policy.outcome(request, answer),
            BuiltinPolicy::Logging(policy) => policy.outcome(request, answer),
        }
    }

    fn provider(&self) -> (r: &'static str) {
        match self {
            BuiltinPolicy::BearerAuth(policy) => policy.provider(),
            BuiltinPolicy::Rbac(policy) => policy.provider(),
            BuiltinPolicy::Logging(policy) => policy.provider(),
        }
    }

    fn category(&self) -> (r: &'static str) {
        match self {
            BuiltinPolicy::BearerAuth(policy) => policy.category(),
            BuiltinPolicy::Rbac(policy) => policy.category(),
            BuiltinPolicy::Logging(policy) => policy.category(),
        }
    }

    fn name(&self) -> (r: &'static str) {
        match self {
            BuiltinPolicy::BearerAuth(policy) => policy.name(),
            BuiltinPolicy::Rbac(policy) => policy.name(),
            BuiltinPolicy::Logging(policy) => policy.name(),
        }
    }

    fn version(&self) -> (r: &'static str) {
        match self {
            BuiltinPolicy::BearerAuth(policy) => policy.version(),
            BuiltinPolicy::Rbac(policy) => policy.version(),
            BuiltinPolicy::Logging(policy) => policy.version(),
        }
    }

    fn register_routes(&self) -> (r: Vec<RouteRegistration>) {
        match self {
            BuiltinPolicy::BearerAuth(policy) => policy.register_routes(),
            BuiltinPolicy::Rbac(policy) => policy.register_routes(),
            BuiltinPolicy::Logging(policy) => policy.register_routes(),
        }
    }

    fn processes_requests(&self) -> (r: bool) {
        match self {
            BuiltinPolicy::BearerAuth(policy) => policy.processes_requests(),
            BuiltinPolicy::Rbac(policy) => policy.processes_requests(),
            BuiltinPolicy::Logging(policy) => policy.processes_requests(),
        }
    }

    fn process(&self, request: Request) -> (r: PolicyStep) {
        match self {
            BuiltinPolicy::BearerAuth(policy) => policy.process(request),
            BuiltinPolicy::Rbac(policy) => policy.process(request),
            BuiltinPolicy::Logging(policy) => policy.process(request),
        }
    }

    fn resume(&self, request: Request, answer: LookupAnswer) -> (r: PolicyResult) {
        match self {
            BuiltinPolicy::BearerAuth(policy) => policy.resume(request, answer),
            BuiltinPolicy::Rbac(policy) => policy.resume(request, answer),
            BuiltinPolicy::Logging(policy) => policy.resume(request, answer),
        }
    }
}

/// The factories of the policies that come with the gateway.
#[derive(Debug, Clone, Copy, PartialEq, Eq, Structural)]
pub enum BuiltinFactory {
    BearerAuth,
    Rbac,
    /// The identifier of the logging policy carries no version, so that no
    /// registry takes this factory: it is for building the policy directly.
    Logging,
}

impl AnyFactory for BuiltinFactory {
    type Built = BuiltinPolicy;

    open spec fn name(&self) -> Seq<char> {
        match self {
            BuiltinFactory::BearerAuth => BearerAuthPolicyFactory::id(),
            BuiltinFactory::Rbac => RbacPolicyFactory::id(),
            BuiltinFactory::Logging => LoggingPolicy::id(),
        }
    }

    open spec fn accepts(&self, parameters: ValueView, databases: DatabasesConfig) -> bool {
        match self {
            BuiltinFactory::BearerAuth => builds::<BearerAuthPolicyFactory>(parameters, databases),
            BuiltinFactory::Rbac => builds::<RbacPolicyFactory>(parameters, databases),
            BuiltinFactory::Logging => builds::<LoggingPolicy>(parameters, databases),
        }
    }

    open spec fn complaint(&self, parameters: ValueView, databases: DatabasesConfig) -> Seq<
        char,
    > {
        match self {
            BuiltinFactory::BearerAuth => build_error::<BearerAuthPolicyFactory>(
                parameters,
                databases,
            ),
            BuiltinFactory::Rbac => build_error::<RbacPolicyFactory>(parameters, databases),
            BuiltinFactory::Logging => build_error::<LoggingPolicy>(parameters, databases),
        }
    }

    open spec fn makes(
        &self,
        parameters: ValueView,
        databases: DatabasesConfig,
        policy: BuiltinPolicy,
    ) -> bool {
        match (self, policy) {
            (BuiltinFactory::BearerAuth, BuiltinPolicy::BearerAuth(built)) => {
                BearerAuthPolicyFactory::made(
                    BearerAuthPolicyFactory::typed(parameters)->Some_0,
                    databases,
                    built,
                )
            },
            (BuiltinFactory::Rbac, BuiltinPolicy::Rbac(built)) => RbacPolicyFactory::made(
                RbacPolicyFactory::typed(parameters)->Some_0,
                databases,
                built,
            ),
            (BuiltinFactory::Logging, BuiltinPolicy::Logging(built)) => LoggingPolicy::made(
                LoggingPolicy::typed(parameters)->Some_0,
                databases,
                built,
            ),
            _ => false,
        }
    }

    fn policy_id(&self) -> (r: &'static str) {
        match self {
            BuiltinFactory::BearerAuth => BearerAuthPolicyFactory::policy_id(),
            BuiltinFactory::Rbac => RbacPolicyFactory::policy_id(),
            BuiltinFactory::Logging => LoggingPolicy::policy_id(),
        }
    }

    fn build(&self, parameters: &OpaqueValue, databases: &DatabasesConfig) -> (r: Result<
        BuiltinPolicy,
        String,
    >) {
        match self {
            BuiltinFactory::BearerAuth => {
                match instantiate::<BearerAuthPolicyFactory>(parameters, databases) {
                    Ok(policy) => Ok(BuiltinPolicy::BearerAuth(policy)),
                    Err(message) => Err(message),
                }
            },
            BuiltinFactory::Rbac => {
                match instantiate::<RbacPolicyFactory>(parameters, databases) {
                    Ok(policy) => Ok(BuiltinPolicy::Rbac(policy)),
                    Err(message) => Err(message),
                }
            },
            BuiltinFactory::Logging => {
                match instantiate::<LoggingPolicy>(parameters, databases) {
                    Ok(policy) => Ok(BuiltinPolicy::Logging(policy)),
                    Err(message) => Err(message),
                }
            },
        }
    }
}

/// Where the factory called `id` stands; the number of factories where none is.
pub open spec fn factory_index<F: AnyFactory>(factories: Seq<F>, id: Seq<char>) -> int
    decreases factories.len(),
{
    if factories.len() == 0 || factories[0].name() == id {
        0
    } else {
        1 + factory_index(factories.drop_first(), id)
    }
}

/// `factory_index` is where the first factory called `id` stands.
pub proof fn lemma_factory_index<F: AnyFactory>(factories: Seq<F>, id: Seq<char>)
    ensures
        0 <= factory_index(factories, id) <= factories.len(),
        forall|j: int| 0 <= j < factory_index(factories, id) ==> (#[trigger] factories[j]).name() != id,
        factory_index(factories, id) < factories.len() ==> factories[factory_index(
            factories,
            id,
        )].name() == id,
    decreases factories.len(),
{
    if factories.len() == 0 || factories[0].name() == id {
    } else {
        lemma_factory_index(factories.drop_first(), id);
        assert forall|j: int| 0 <= j < factory_index(factories, id) implies (
        #[trigger] factories[j]).name() != id by {
            if j > 0 {
                assert(factories[j] == factories.drop_first()[j - 1]);
            }
        }
    }
}

/// The factory registered under `id`.
pub open spec fn registered<F: AnyFactory>(factories: Seq<F>, id: Seq<char>) -> Option<F> {
    let i = factory_index(factories, id);
    if 0 <= i < factories.len() {
        Some(factories[i])
    } else {
        None
    }
}

/// Whether the policy that `config` describes can be built.
pub open spec fn buildable<F: AnyFactory>(
    factories: Seq<F>,
    config: PolicyConfigView,
    databases: DatabasesConfig,
) -> bool {
    match registered(factories, config.provider) {
        Some(factory) => factory.accepts(config.parameters, databases),
        None => false,
    }
}

/// Why the policy that `config` describes cannot be built: no factory is
/// registered under its provider, or the factory's own words.
pub open spec fn unbuildable<F: AnyFactory>(
    factories: Seq<F>,
    config: PolicyConfigView,
    databases: DatabasesConfig,
) -> Seq<char> {
    match registered(factories, config.provider) {
        Some(factory) => factory.complaint(config.parameters, databases),
        None => "Policy not found for provider ID: "@ + config.provider,
    }
}

/// Where the first policy that cannot be built stands; the number of
/// policies where all can.
pub open spec fn first_unbuildable<F: AnyFactory>(
    factories: Seq<F>,
    configs: Seq<PolicyConfigView>,
    databases: DatabasesConfig,
) -> int
    decreases configs.len(),
{
    if configs.len() == 0 || !buildable(factories, configs[0], databases) {
        0
    } else {
        1 + first_unbuildable(factories, configs.drop_first(), databases)
    }
}

/// Whether `policies` are the policies built from `configs`, one for one.
pub open spec fn built_from<F: AnyFactory>(
    factories: Seq<F>,
    configs: Seq<PolicyConfigView>,
    databases: DatabasesConfig,
    policies: Seq<F::Built>,
) -> bool {
    &&& policies.len() == configs.len()
    &&& forall|i: int|
        0 <= i < configs.len() ==> {
            &&& registered(factories, (#[trigger] configs[i]).provider) is Some
            &&& registered(factories, configs[i].provider)->Some_0.makes(
                configs[i].parameters,
                databases,
                policies[i],
            )
        }
}

/// The policies that requests run through: those that process requests, in
/// their order.
pub open spec fn chain_members<P: Policy>(policies: Seq<P>) -> Seq<P>
    decreases policies.len(),
{
    if policies.len() == 0 {
        policies
    } else if policies.last().in_chain() {
        chain_members(policies.drop_last()).push(policies.last())
    } else {
        chain_members(policies.drop_last())
    }
}

/// The place under which the admin routes of a policy are mounted.
pub open spec fn policy_base<P: Policy>(policy: P) -> Seq<char> {
    admin_base(
        policy.identity().provider,
        policy.identity().category,
        policy.identity().name,
        policy.identity().version,
    )
}

/// The admin routes of the policies, in the order of the policies.
pub open spec fn admin_routes<P: Policy>(policies: Seq<P>) -> Seq<RouteView>
    decreases policies.len(),
{
    if policies.len() == 0 {
        Seq::empty()
    } else {
        admin_routes(policies.drop_last()) + mounted_routes(
            policies.last().routes(),
            policy_base(policies.last()),
        )
    }
}

/// Whether every factory stands under an identifier that names a version,
/// and no two of them under the same.
pub open spec fn well_registered<F: AnyFactory>(factories: Seq<F>) -> bool {
    &&& forall|i: int| 0 <= i < factories.len() ==> is_versioned(#[trigger] factories[i].name())
    &&& forall|i: int, j: int|
        0 <= i < j < factories.len() ==> #[trigger] factories[i].name()
            != #[trigger] factories[j].name()
}

/// Maps policy identifiers to the factories that build the policies. Every
/// registered identifier names a version, and none is registered twice.
pub struct PolicyRegistry<F: AnyFactory> {
    factories: Vec<F>,
}

impl<F: AnyFactory> PolicyRegistry<F> {
    #[verifier::type_invariant]
    closed spec fn well_formed(&self) -> bool {
        well_registered(self.factories@)
    }

    /// The registered factories.
    pub closed spec fn entries(&self) -> Seq<F> {
        self.factories@
    }

    /// The factory registered under `id`.
    pub open spec fn lookup(&self, id: Seq<char>) -> Option<F> {
        registered(self.entries(), id)
    }

    /// A registry without factories.
    pub fn new() -> (r: Self)
        ensures
            r.entries() == Seq::<F>::empty(),
    {
        PolicyRegistry { factories: Vec::new() }
    }

    fn position(&self, id: &str) -> (r: Option<usize>)
        ensures
            r matches Some(i) ==> i < self.entries().len() && i == factory_index(
                self.entries(),
                id@,
            ),
            r is None ==> factory_index(self.entries(), id@) >= self.entries().len(),
    {
        let mut i: usize = 0;
        assert(self.factories@.skip(0) == self.factories@);
        while i < self.factories.len()
            invariant
                i <= self.factories.len(),
                factory_index(self.factories@, id@) == i + factory_index(
                    self.factories@.skip(i as int),
                    id@,
                ),
            decreases self.factories.len() - i,
        {
            assert(self.factories@.skip(i as int)[0] == self.factories@[i as int]);
            if equal(self.factories[i].policy_id(), id) {
                return Some(i);
            }
            assert(self.factories@.skip(i as int).drop_first() == self.factories@.skip(i + 1));
            i += 1;
        }
        None
    }

    /// The factory registered under `id`.
    pub fn get(&self, id: &str) -> (r: Option<&F>)
        ensures
            r matches Some(factory) ==> self.lookup(id@) == Some(*factory) && factory.name() == id@
                && is_versioned(id@),
            r is None ==> self.lookup(id@) is None,
    {
        proof {
            use_type_invariant(self);
            lemma_factory_index(self.entries(), id@);
        }
        match self.position(id) {
            Some(i) => Some(&self.factories[i]),
            None => None,
        }
    }

    /// Registers a factory under its identifier, in place of the factory
    /// that was registered under it before, if any. An identifier without a
    /// version is refused, and the registry stays as it is.
    pub fn register_policy(&mut self, factory: F) -> (r: Result<(), String>)
        ensures
            r is Ok <==> is_versioned(factory.name()),
            r matches Err(message) ==> message@ == unversioned_complaint(factory.name())
                && final(self).entries() == old(self).entries(),
            r is Ok ==> final(self).lookup(factory.name()) == Some(factory),
            r is Ok ==> forall|id: Seq<char>|
                id != factory.name() ==> #[trigger] final(self).lookup(id) == old(self).lookup(id),
    {
        let id = factory.policy_id();
        if !is_versioned_id(id) {
            return Err(
                "Invalid policy ID: ".to_owned().concat(id).concat(
                    ". All policies must specify a version (e.g., @provider/category/name/v1)",
                ),
            );
        }
        let ghost before = self.factories@;
        proof {
            use_type_invariant(&*self);
        }
        let at = self.position(id);
        let mut taken = PolicyRegistry { factories: Vec::new() };
        std::mem::swap(self, &mut taken);
        let mut factories = taken.factories;
        match at {
            Some(i) => {
                factories[i] = factory;
                proof {
                    let after = factories@;
                    lemma_factory_index(before, factory.name());
                    assert(before[i as int].name() == factory.name());
                    assert forall|a: int, b: int| 0 <= a < b < after.len() implies
                        #[trigger] after[a].name() != #[trigger] after[b].name() by {
                        assert(before[a].name() != before[b].name());
                    }
                    lemma_factory_index(after, factory.name());
                    let k = factory_index(after, factory.name());
                    assert(after[i as int].name() == factory.name());
                    if k > i {
                        assert(after[i as int].name() != factory.name());
                    }
                    if k < i {
                        assert(after[k] == before[k]);
                        assert(before[k].name() != factory.name());
                    }
                    assert(k == i);
                    assert forall|other: Seq<char>| other != factory.name() implies registered(
                        after,
                        other,
                    ) == registered(before, other) by {
                        lemma_replaced(before, after, i as int, other);
                    }
                }
            },
            None => {
                factories.push(factory);
                proof {
                    let after = factories@;
                    lemma_factory_index(before, factory.name());
                    assert forall|a: int, b: int| 0 <= a < b < after.len() implies
                        #[trigger] after[a].name() != #[trigger] after[b].name() by {
                        if b < before.len() {
                            assert(before[a].name() != before[b].name());
                        } else {
                            assert(before[a].name() != factory.name());
                        }
                    }
                    lemma_factory_index(after, factory.name());
                    let k = factory_index(after, factory.name());
                    assert(after[before.len() as int] == factory);
                    if k > before.len() {
                        assert(after[before.len() as int].name() != factory.name());
                    }
                    if k < before.len() {
                        assert(after[k] == before[k]);
                        assert(before[k].name() != factory.name());
                    }
                    assert(k == before.len());
                    assert forall|other: Seq<char>| other != factory.name() implies registered(
                        after,
                        other,
                    ) == registered(before, other) by {
                        lemma_appended(before, factory, other);
                    }
                }
            },
        }
        *self = PolicyRegistry { factories };
        Ok(())
    }

    /// Builds the policy of each configuration, in their order.
    pub fn build_policies(&self, config: &Vec<PolicyConfig>, databases: &DatabasesConfig) -> (r:
        Result<Vec<F::Built>, String>)
        ensures
            r is Ok <==> forall|i: int|
                0 <= i < config.len() ==> buildable(
                    self.entries(),
                    #[trigger] config.deep_view()[i],
                    *databases,
                ),
            r matches Ok(policies) ==> built_from(
                self.entries(),
                config.deep_view(),
                *databases,
                policies@,
            ),
            r is Ok ==> forall|i: int|
                0 <= i < config.len() ==> is_versioned(#[trigger] config.deep_view()[i].provider),
            r matches Err(message) ==> {
                let i = first_unbuildable(self.entries(), config.deep_view(), *databases);
                0 <= i < config.len() && message@ == unbuildable(
                    self.entries(),
                    config.deep_view()[i],
                    *databases,
                )
            },
    {
        let ghost configs = config.deep_view();
        let mut policies: Vec<F::Built> = Vec::new();
        let mut i: usize = 0;
        assert(configs.skip(0) == configs);
        while i < config.len()
            invariant
                i <= config.len(),
                configs == config.deep_view(),
                policies.len() == i,
                forall|j: int| 0 <= j < i ==> buildable(self.entries(), #[trigger] configs[j], *databases),
                forall|j: int| 0 <= j < i ==> is_versioned(#[trigger] configs[j].provider),
                forall|j: int|
                    0 <= j < i ==> {
                        &&& registered(self.entries(), (#[trigger] configs[j]).provider) is Some
                        &&& registered(self.entries(), configs[j].provider)->Some_0.makes(
                            configs[j].parameters,
                            *databases,
                            policies[j],
                        )
                    },
                first_unbuildable(self.entries(), configs, *databases) == i + first_unbuildable(
                    self.entries(),
                    configs.skip(i as int),
                    *databases,
                ),
            decreases config.len() - i,
        {
            assert(configs.skip(i as int)[0] == configs[i as int]);
            assert(configs[i as int] == config[i as int]@);
            let factory = match self.get(config[i].provider.as_str()) {
                Some(factory) => factory,
                None => {
                    return Err(
                        "Policy not found for provider ID: ".to_owned().concat(
                            config[i].provider.as_str(),
                        ),
                    );
                },
            };
            let policy = match factory.build(&config[i].parameters, databases) {
                Ok(policy) => policy,
                Err(message) => {
                    return Err(message);
                },
            };
            policies.push(policy);
            assert(configs.skip(i as int).drop_first() == configs.skip(i + 1));
            i += 1;
        }
        Ok(policies)
    }

    /// Build a policy chain from a list of policy configurations: the
    /// policies that process requests, in the order of the configurations,
    /// and the admin routes of all the policies.
    pub fn build_policy_chain(&self, config: &Vec<PolicyConfig>, databases: &DatabasesConfig) -> (r:
        Result<(Vec<F::Built>, PolicyRouter), String>)
        ensures
            r is Ok <==> forall|i: int|
                0 <= i < config.len() ==> buildable(
                    self.entries(),
                    #[trigger] config.deep_view()[i],
                    *databases,
                ),
            r matches Ok((chain, router)) ==> exists|policies: Seq<F::Built>|
                {
                    &&& #[trigger] built_from(
                        self.entries(),
                        config.deep_view(),
                        *databases,
                        policies,
                    )
                    &&& chain@ == chain_members(policies)
                    &&& router@ == admin_routes(policies)
                },
            r is Ok ==> forall|i: int|
                0 <= i < config.len() ==> is_versioned(#[trigger] config.deep_view()[i].provider),
            r matches Err(message) ==> {
                let i = first_unbuildable(self.entries(), config.deep_view(), *databases);
                0 <= i < config.len() && message@ == unbuildable(
                    self.entries(),
                    config.deep_view()[i],
                    *databases,
                )
            },
    {
        match self.build_policies(config, databases) {
            Err(message) => Err(message),
            Ok(policies) => {
                let ghost all = policies@;
                let (chain, router) = assemble_chain(policies);
                assert(built_from(self.entries(), config.deep_view(), *databases, all));
                Ok((chain, router))
            },
        }
    }
}

proof fn lemma_replaced<F: AnyFactory>(before: Seq<F>, after: Seq<F>, at: int, other: Seq<char>)
    requires
        0 <= at < before.len(),
        after.len() == before.len(),
        forall|j: int| 0 <= j < before.len() && j != at ==> after[j] == before[j],
        before[at].name() == after[at].name(),
        other != after[at].name(),
    ensures
        registered(after, other) == registered(before, other),
{
    lemma_factory_index(before, other);
    lemma_factory_index(after, other);
    let a = factory_index(before, other);
    let b = factory_index(after, other);
    if a < before.len() {
        assert(a != at);
        assert(after[a].name() == other);
        if b < a {
            assert(b != at);
            assert(before[b].name() == other);
        }
    }
    if b < after.len() {
        assert(b != at);
        assert(before[b].name() == other);
        if a < b {
            assert(after[a].name() == other);
        }
    }
}

proof fn lemma_appended<F: AnyFactory>(before: Seq<F>, factory: F, other: Seq<char>)
    requires
        other != factory.name(),
    ensures
        registered(before.push(factory), other) == registered(before, other),
{
    let after = before.push(factory);
    lemma_factory_index(before, other);
    lemma_factory_index(after, other);
    let a = factory_index(before, other);
    let b = factory_index(after, other);
    if a < before.len() {
        assert(after[a] == before[a]);
        if b < a {
            assert(after[b] == before[b]);
        }
    }
    if b < after.len() {
        assert(b < before.len());
        assert(after[b] == before[b]);
        if a < b {
            assert(after[a] == before[a]);
        }
    }
}

/// Parts the policies that process requests from those that only contribute
/// routes, and mounts the admin routes of all of them.
pub fn assemble_chain<P: Policy>(policies: Vec<P>) -> (r: (Vec<P>, PolicyRouter))
    ensures
        r.0@ == chain_members(policies@),
        r.1@ == admin_routes(policies@),
{
    let mut policy_chain: Vec<P> = Vec::new();
    let mut policy_router = PolicyRouter::new();
    let ghost all = policies@;
    assert(all.take(0) == Seq::<P>::empty());
    for policy in it: policies
        invariant
            it.seq() == all,
            policy_chain@ == chain_members(all.take(it.index())),
            policy_router@ == admin_routes(all.take(it.index())),
    {
        assert(all.take(it.index() + 1).drop_last() == all.take(it.index()));
        assert(all.take(it.index() + 1).last() == policy);
        let routes = policy.register_routes();
        if routes.len() > 0 {
            let base_path = "/_admin/".to_owned().concat(policy.provider()).concat("/").concat(
                policy.category(),
            ).concat("/").concat(policy.name()).concat("/").concat(policy.version());
            policy_router.register_routes(routes, base_path.as_str());
        } else {
            assert(routes.deep_view().len() == 0);
            assert(policy_router@ + mounted_routes(policy.routes(), policy_base(policy))
                == policy_router@);
        }
        if policy.processes_requests() {
            policy_chain.push(policy);
        }
    }
    assert(all.take(all.len() as int) == all);
    (policy_chain, policy_router)
}

/// A registry builds the chain of a single policy exactly where the factory
/// registered under the policy's provider accepts the policy's parameters.
pub proof fn lemma_single_policy<F: AnyFactory>(
    factories: Seq<F>,
    factory: F,
    config: PolicyConfigView,
    databases: DatabasesConfig,
)
    requires
        registered(factories, config.provider) == Some(factory),
    ensures
        (forall|i: int|
            0 <= i < seq![config].len() ==> buildable(factories, #[trigger] seq![config][i], databases))
            <==> factory.accepts(config.parameters, databases),
{
    assert(seq![config][0] == config);
}

/// For a factory `F` the chain of a single policy is built exactly where the
/// parameters stand for a configuration that `F` finds valid. Left out are
/// the valid configurations that name a database that is not configured:
/// from those nothing is built.
pub proof fn lemma_builds_iff_valid<F: PolicyFactory>(
    parameters: ValueView,
    databases: DatabasesConfig,
)
    requires
        F::typed(parameters) matches Some(config) ==> F::acceptable(config) ==> F::supplied(
            config,
            databases,
        ),
    ensures
        builds::<F>(parameters, databases) <==> (F::typed(parameters) matches Some(config)
            && F::acceptable(config)),
{
}

/// Whether parameters stand for a configuration that the factory finds valid.
pub open spec fn valid_parameters(factory: BuiltinFactory, parameters: ValueView) -> bool {
    match factory {
        BuiltinFactory::BearerAuth => BearerAuthPolicyFactory::typed(parameters) matches Some(
            config,
        ) && BearerAuthPolicyFactory::acceptable(config),
        BuiltinFactory::Rbac => RbacPolicyFactory::typed(parameters) matches Some(config)
            && RbacPolicyFactory::acceptable(config),
        BuiltinFactory::Logging => LoggingPolicy::typed(parameters) matches Some(config)
            && LoggingPolicy::acceptable(config),
    }
}

/// Whether the databases are configured that the parameters name, where the
/// parameters are a valid configuration.
pub open spec fn databases_supplied(
    factory: BuiltinFactory,
    parameters: ValueView,
    databases: DatabasesConfig,
) -> bool {
    match factory {
        BuiltinFactory::BearerAuth => BearerAuthPolicyFactory::typed(parameters) matches Some(
            config,
        ) ==> BearerAuthPolicyFactory::acceptable(config) ==> BearerAuthPolicyFactory::supplied(
            config,
            databases,
        ),
        _ => true,
    }
}

/// The chain of a single policy is built exactly where the parameters of
/// the policy are a valid configuration for the factory that is registered
/// under its provider. Left out are the valid configurations that name a
/// database that is not configured: from those nothing is built.
pub proof fn lemma_built_iff_valid(
    factories: Seq<BuiltinFactory>,
    factory: BuiltinFactory,
    config: PolicyConfigView,
    databases: DatabasesConfig,
)
    requires
        registered(factories, config.provider) == Some(factory),
        databases_supplied(factory, config.parameters, databases),
    ensures
        (forall|i: int|
            0 <= i < seq![config].len() ==> buildable(factories, #[trigger] seq![config][i], databases))
            <==> valid_parameters(factory, config.parameters),
{
    lemma_single_policy(factories, factory, config, databases);
}

} // verus!
