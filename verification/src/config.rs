//! The configuration the gateway is started with, and the rule that decides
//! whether a configuration was written for this version of the gateway.

use crate::text::{decimal, decimal_text, equal, pieces, split, starts_with, strip_prefix};
use crate::value::{copy_value, OpaqueValue, ValueView};
use vstd::prelude::*;
use vstd::string::*;

verus! {

/// The kinds of database a policy can ask for.
#[derive(Debug, Clone, Copy, PartialEq, Eq, Structural)]
pub enum DatabaseType {
    Redis,
    Postgres,
    Mysql,
    Mongo,
}

/// How the Redis store is reached.
#[derive(Debug, Clone, Default)]
pub struct RedisConfig {
    pub connection_url: String,
    pub password: Option<String>,
    pub database: Option<u16>,
    pub timeout: Option<u64>,
}

/// How the PostgreSQL database is reached.
#[derive(Debug, Clone, Default)]
pub struct PostgresConfig {
    pub connection_url: String,
    pub username: Option<String>,
    pub password: Option<String>,
    pub database: Option<String>,
    pub connection_pool_size: Option<u32>,
    pub ssl: Option<bool>,
}

/// How the MySQL database is reached.
#[derive(Debug, Clone, Default)]
pub struct MySqlConfig {
    pub connection_url: String,
    pub username: Option<String>,
    pub password: Option<String>,
    pub database: Option<String>,
    pub connection_pool_size: Option<u32>,
    pub ssl: Option<bool>,
}

/// How the MongoDB store is reached, and which of its databases is used.
#[derive(Debug, Default)]
pub struct MongoConfig {
    pub connection_uri: String,
    pub database: String,
    pub options: Option<Vec<(String, OpaqueValue)>>,
}

/// The databases that policies may use: at most one of each kind.
#[derive(Debug, Default)]
pub struct DatabasesConfig {
    pub redis: Option<RedisConfig>,
    pub postgres: Option<PostgresConfig>,
    pub mysql: Option<MySqlConfig>,
    pub mongo: Option<MongoConfig>,
}

/// One policy of the chain: which factory builds it, and from what parameters.
pub struct PolicyConfig {
    pub id: String,
    pub provider: String,
    pub parameters: OpaqueValue,
}

pub struct PolicyConfigView {
    pub id: Seq<char>,
    pub provider: Seq<char>,
    pub parameters: ValueView,
}

impl View for PolicyConfig {
    type V = PolicyConfigView;

    open spec fn view(&self) -> PolicyConfigView {
        PolicyConfigView { id: self.id@, provider: self.provider@, parameters: self.parameters@ }
    }
}

impl DeepView for PolicyConfig {
    type V = PolicyConfigView;

    open spec fn deep_view(&self) -> PolicyConfigView {
        self@
    }
}

/// Where the gateway listens, and where it forwards to.
pub struct ServerConfig {
    pub bind_address: String,
    pub port: u16,
    /// Where requests are forwarded to once the policies let them pass.
    /// Without it the gateway answers by itself.
    pub destination_address: Option<String>,
}

/// The whole configuration of the gateway.
pub struct Config {
    pub server: ServerConfig,
    /// The policies in the order in which requests run through them.
    pub policies: Vec<PolicyConfig>,
    pub databases: DatabasesConfig,
    /// The versions of the gateway that this configuration was written for.
    pub bouncer_version: String,
    /// The entries of the configuration that none of the fields above takes,
    /// in the order in which they were written.
    pub policy_configs: Vec<(String, OpaqueValue)>,
}

/// The address that the gateway binds to when the configuration names none.
pub fn default_bind_address() -> (address: String)
    ensures
        address@ == "127.0.0.1"@,
{
    "127.0.0.1".to_owned()
}

/// The port that the gateway listens on when the configuration names none.
pub fn default_port() -> (port: u16)
    ensures
        port == 8080,
{
    8080
}

/// The policies that a list of configuration entries declares: one for each
/// entry whose name begins with `@`, in the order of the entries, with that
/// name as its id and its provider and the entry's value as its parameters.
pub open spec fn declared_policies(entries: Seq<(Seq<char>, ValueView)>) -> Seq<PolicyConfigView>
    decreases entries.len(),
{
    if entries.len() == 0 {
        Seq::empty()
    } else {
        let entry = entries.last();
        let before = declared_policies(entries.drop_last());
        if "@"@.is_prefix_of(entry.0) {
            before.push(PolicyConfigView { id: entry.0, provider: entry.0, parameters: entry.1 })
        } else {
            before
        }
    }
}

impl Config {
    /// Adds the policies declared among `policy_configs` to the end of
    /// `policies`, each with a copy of its entry's name and value. The
    /// entries themselves and the policies that were there stay as they are.
    pub fn process_policy_configs(&mut self)
        ensures
            final(self).policies.deep_view() == old(self).policies.deep_view() + declared_policies(
                old(self).policy_configs.deep_view(),
            ),
            final(self).policies@.take(old(self).policies.len() as int) == old(self).policies@,
            final(self).policy_configs == old(self).policy_configs,
            final(self).server == old(self).server,
            final(self).databases == old(self).databases,
            final(self).bouncer_version == old(self).bouncer_version,
    {
        let ghost start = self.policies.deep_view();
        let ghost all = self.policy_configs.deep_view();
        let ghost kept = self.policies@;
        assert(all.take(0) == Seq::<(Seq<char>, ValueView)>::empty());
        assert(start + declared_policies(all.take(0)) == start);
        assert(kept.take(kept.len() as int) == kept);
        let mut i: usize = 0;
        while i < self.policy_configs.len()
            invariant
                i <= self.policy_configs.len(),
                all == self.policy_configs.deep_view(),
                kept == old(self).policies@,
                start == old(self).policies.deep_view(),
                self.policies.deep_view() == start + declared_policies(all.take(i as int)),
                kept.len() <= self.policies.len(),
                self.policies@.take(kept.len() as int) == kept,
                self.policy_configs == old(self).policy_configs,
                self.server == old(self).server,
                self.databases == old(self).databases,
                self.bouncer_version == old(self).bouncer_version,
            decreases self.policy_configs.len() - i,
        {
            assert(all.take(i + 1).drop_last() == all.take(i as int));
            assert(all.take(i + 1).last() == (
                self.policy_configs[i as int].0@,
                self.policy_configs[i as int].1@,
            ));
            if starts_with(self.policy_configs[i].0.as_str(), "@") {
                let ghost before = self.policies.deep_view();
                let ghost earlier = self.policies@;
                let policy = PolicyConfig {
                    id: self.policy_configs[i].0.clone(),
                    provider: self.policy_configs[i].0.clone(),
                    parameters: copy_value(&self.policy_configs[i].1),
                };
                self.policies.push(policy);
                assert(self.policies.deep_view() == before.push(policy@));
                assert(self.policies@.take(kept.len() as int) == earlier.take(kept.len() as int));
            }
            i += 1;
        }
        assert(all.take(all.len() as int) == all);
    }

    /// The address to listen on: the bind address, a colon, and the port.
    pub fn full_bind_address(&self) -> (address: String)
        ensures
            address@ == self.server.bind_address@ + ":"@ + decimal(self.server.port as nat),
    {
        let port = decimal_text(self.server.port as u64);
        self.server.bind_address.clone().concat(":").concat(port.as_str())
    }
}

/// The name of the environment variable that a text refers to: what follows
/// `ENV.`, where the text begins with it.
pub open spec fn env_reference(value: Seq<char>) -> Option<Seq<char>> {
    if "ENV."@.is_prefix_of(value) {
        Some(value.skip("ENV."@.len() as int))
    } else {
        None
    }
}

/// The name of the environment variable that `value` refers to, if it refers to one.
pub fn env_reference_name(value: &str) -> (name: Option<String>)
    ensures
        name.deep_view() == env_reference(value@),
{
    strip_prefix(value, "ENV.")
}

/// A text of the configuration once the environment was looked at: the
/// value of the variable that the text refers to, where it refers to one and
/// that one is set (`found`); otherwise the text as it was written.
pub open spec fn expanded(value: Seq<char>, found: Option<Seq<char>>) -> Seq<char> {
    match (env_reference(value), found) {
        (Some(name), Some(set)) => set,
        _ => value,
    }
}

/// A text of the configuration once the variable it refers to was looked up.
pub fn expand_env_reference(value: String, found: Option<String>) -> (r: String)
    ensures
        r@ == expanded(value@, found.deep_view()),
{
    match found {
        Some(set) => if starts_with(value.as_str(), "ENV.") {
            set
        } else {
            value
        },
        None => value,
    }
}

/// Whether `part` is the wildcard, which stands for any value.
pub open spec fn is_wildcard(part: Seq<char>) -> bool {
    part == "*"@
}

/// Whether a configuration written for `config` runs on the gateway of
/// version `current`: both have three parts between dots, the first parts
/// are the same and no wildcard, and the second and the third part of
/// `config` are each a wildcard or the same as in `current`.
pub open spec fn version_compatible(config: Seq<char>, current: Seq<char>) -> bool {
    let wanted = pieces(config, '.');
    let running = pieces(current, '.');
    &&& running.len() == 3
    &&& wanted.len() == 3
    &&& !is_wildcard(wanted[0])
    &&& wanted[0] == running[0]
    &&& (is_wildcard(wanted[1]) || wanted[1] == running[1])
    &&& (is_wildcard(wanted[2]) || wanted[2] == running[2])
}

/// Why `config` does not admit `current`: the first that applies of a
/// malformed current version, a malformed configured version, a wildcard
/// as the major part, and a difference in the major, minor or patch part.
pub open spec fn version_error(config: Seq<char>, current: Seq<char>) -> Seq<char> {
    let wanted = pieces(config, '.');
    let running = pieces(current, '.');
    if running.len() != 3 {
        "Invalid current version format: "@ + current
    } else if wanted.len() != 3 {
        "Invalid config version format: "@ + config
    } else if is_wildcard(wanted[0]) {
        "Wildcard major version is not allowed. Use a specific major version number."@
    } else if wanted[0] != running[0] {
        "Major version mismatch: config requires "@ + wanted[0] + ", but current is "@
            + running[0]
    } else if !is_wildcard(wanted[1]) && wanted[1] != running[1] {
        "Minor version mismatch: config requires "@ + wanted[0] + "."@ + wanted[1]
            + ".*, but current is "@ + running[0] + "."@ + running[1] + "."@ + running[2]
    } else {
        "Patch version mismatch: config requires "@ + wanted[0] + "."@ + wanted[1] + "."@
            + wanted[2] + ", but current is "@ + running[0] + "."@ + running[1] + "."@
            + running[2]
    }
}

/// Checks that the version a configuration asks for admits the version of
/// the running gateway.
pub fn validate_version(config_version: &str, current_version: &str) -> (r: Result<(), String>)
    ensures
        r is Ok <==> version_compatible(config_version@, current_version@),
        r matches Err(message) ==> message@ == version_error(config_version@, current_version@),
{
    let current_parts = split(current_version, '.');
    if current_parts.len() != 3 {
        return Err("Invalid current version format: ".to_owned().concat(current_version));
    }
    let config_parts = split(config_version, '.');
    if config_parts.len() != 3 {
        return Err("Invalid config version format: ".to_owned().concat(config_version));
    }
    let ghost wanted = pieces(config_version@, '.');
    let ghost running = pieces(current_version@, '.');
    assert(config_parts[0]@ == wanted[0] && config_parts[1]@ == wanted[1] && config_parts[2]@
        == wanted[2]);
    assert(current_parts[0]@ == running[0] && current_parts[1]@ == running[1]
        && current_parts[2]@ == running[2]);
    let wanted_major = config_parts[0].as_str();
    let wanted_minor = config_parts[1].as_str();
    let wanted_patch = config_parts[2].as_str();
    let major = current_parts[0].as_str();
    let minor = current_parts[1].as_str();
    let patch = current_parts[2].as_str();
    if equal(wanted_major, "*") {
        return Err(
            "Wildcard major version is not allowed. Use a specific major version number.".to_owned(),
        );
    }
    if !equal(wanted_major, major) {
        return Err(
            "Major version mismatch: config requires ".to_owned().concat(wanted_major).concat(
                ", but current is ",
            ).concat(major),
        );
    }
    if !equal(wanted_minor, "*") && !equal(wanted_minor, minor) {
        return Err(
            "Minor version mismatch: config requires ".to_owned().concat(wanted_major).concat(
                ".",
            ).concat(wanted_minor).concat(".*, but current is ").concat(major).concat(".").concat(
                minor,
            ).concat(".").concat(patch),
        );
    }
    if !equal(wanted_patch, "*") && !equal(wanted_patch, patch) {
        return Err(
            "Patch version mismatch: config requires ".to_owned().concat(wanted_major).concat(
                ".",
            ).concat(wanted_minor).concat(".").concat(wanted_patch).concat(
                ", but current is ",
            ).concat(major).concat(".").concat(minor).concat(".").concat(patch),
        );
    }
    Ok(())
}

/// A version of three parts whose major part is no wildcard admits itself.
pub proof fn lemma_version_admits_itself(version: Seq<char>)
    requires
        pieces(version, '.').len() == 3,
        !is_wildcard(pieces(version, '.')[0]),
    ensures
        version_compatible(version, version),
{
}

/// `0.*.*` admits every version `0.<minor>.<patch>`.
pub proof fn lemma_version_wildcards(minor: Seq<char>, patch: Seq<char>)
    requires
        !minor.contains('.'),
        !patch.contains('.'),
    ensures
        version_compatible("0.*.*"@, "0"@ + "."@ + minor + "."@ + patch),
{
    reveal_strlit("0.*.*");
    reveal_strlit("0");
    reveal_strlit("*");
    reveal_strlit(".");
    let star = seq!['*'];
    let zero = seq!['0'];
    assert("."@ == seq!['.']);
    assert(!zero.contains('.'));
    assert(!star.contains('.'));
    crate::text::lemma_pieces_whole(star, '.');
    crate::text::lemma_pieces_joined(star, '.', star);
    crate::text::lemma_pieces_joined(zero, '.', star + seq!['.'] + star);
    assert("0.*.*"@ =~= zero + seq!['.'] + (star + seq!['.'] + star));
    crate::text::lemma_pieces_whole(patch, '.');
    crate::text::lemma_pieces_joined(minor, '.', patch);
    crate::text::lemma_pieces_joined(zero, '.', minor + seq!['.'] + patch);
    assert("0"@ + "."@ + minor + "."@ + patch =~= zero + seq!['.'] + (minor + seq!['.'] + patch));
    assert("0"@ =~= zero);
    assert("*"@ =~= star);
}

} // verus!
