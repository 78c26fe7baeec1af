//! The databases that policies look tokens up in: which kinds there are, and
//! whether the configuration holds the one that a policy asks for.

use crate::config::{
    DatabaseType, DatabasesConfig, MongoConfig, MySqlConfig, PostgresConfig, RedisConfig,
};
use crate::text::equal;
use vstd::prelude::*;
use vstd::string::*;

pub mod errors;

pub use errors::DatabaseError;
pub use errors::DatabaseErrorView;

verus! {

/// The kind of database that a provider name stands for.
pub open spec fn provider_kind(name: Seq<char>) -> Option<DatabaseType> {
    if name == "postgres"@ {
        Some(DatabaseType::Postgres)
    } else if name == "mysql"@ {
        Some(DatabaseType::Mysql)
    } else if name == "redis"@ {
        Some(DatabaseType::Redis)
    } else if name == "mongo"@ {
        Some(DatabaseType::Mongo)
    } else {
        None
    }
}

/// Whether the configuration holds a database of this kind.
pub open spec fn is_configured(config: DatabasesConfig, kind: DatabaseType) -> bool {
    match kind {
        DatabaseType::Postgres => config.postgres is Some,
        DatabaseType::Mysql => config.mysql is Some,
        DatabaseType::Redis => config.redis is Some,
        DatabaseType::Mongo => config.mongo is Some,
    }
}

/// How a kind of database is called in messages.
pub open spec fn product_name(kind: DatabaseType) -> Seq<char> {
    match kind {
        DatabaseType::Postgres => "PostgreSQL"@,
        DatabaseType::Mysql => "MySQL"@,
        DatabaseType::Redis => "Redis"@,
        DatabaseType::Mongo => "MongoDB"@,
    }
}

/// What `validate_database_config` answers: an unknown provider and a
/// provider whose database is not configured are errors of configuration.
pub open spec fn database_verdict(config: DatabasesConfig, db_provider: Seq<char>) -> Result<
    (),
    DatabaseErrorView,
> {
    match provider_kind(db_provider) {
        None => Err(
            DatabaseErrorView::ConfigurationError("Unknown database provider: "@ + db_provider),
        ),
        Some(kind) => if is_configured(config, kind) {
            Ok(())
        } else {
            Err(
                DatabaseErrorView::ConfigurationError(
                    product_name(kind) + " database configuration is required but not provided"@,
                ),
            )
        },
    }
}

pub open spec fn verdict_view(r: Result<(), DatabaseError>) -> Result<(), DatabaseErrorView> {
    match r {
        Ok(()) => Ok(()),
        Err(e) => Err(e@),
    }
}

impl DatabaseType {
    /// The kind of database that a provider name stands for.
    pub fn from_provider(name: &str) -> (kind: Option<DatabaseType>)
        ensures
            kind == provider_kind(name@),
    {
        if equal(name, "postgres") {
            Some(DatabaseType::Postgres)
        } else if equal(name, "mysql") {
            Some(DatabaseType::Mysql)
        } else if equal(name, "redis") {
            Some(DatabaseType::Redis)
        } else if equal(name, "mongo") {
            Some(DatabaseType::Mongo)
        } else {
            None
        }
    }

    /// How this kind of database is called in messages.
    pub fn product(&self) -> (name: &'static str)
        ensures
            name@ == product_name(*self),
    {
        match self {
            DatabaseType::Postgres => "PostgreSQL",
            DatabaseType::Mysql => "MySQL",
            DatabaseType::Redis => "Redis",
            DatabaseType::Mongo => "MongoDB",
        }
    }
}

/// Validate that the databases section of the configuration holds the
/// database that `db_provider` names.
pub fn validate_database_config(config: &DatabasesConfig, db_provider: &str) -> (r: Result<
    (),
    DatabaseError,
>)
    ensures
        verdict_view(r) == database_verdict(*config, db_provider@),
{
    let kind = match DatabaseType::from_provider(db_provider) {
        Some(kind) => kind,
        None => {
            return Err(
                DatabaseError::ConfigurationError(
                    "Unknown database provider: ".to_owned().concat(db_provider),
                ),
            );
        },
    };
    let present = match kind {
        DatabaseType::Postgres => config.postgres.is_some(),
        DatabaseType::Mysql => config.mysql.is_some(),
        DatabaseType::Redis => config.redis.is_some(),
        DatabaseType::Mongo => config.mongo.is_some(),
    };
    if present {
        Ok(())
    } else {
        Err(
            DatabaseError::ConfigurationError(
                kind.product().to_owned().concat(
                    " database configuration is required but not provided",
                ),
            ),
        )
    }
}

/// Where to connect to, and with how many connections at most.
pub struct ConnectionPlan {
    pub url: String,
    /// The size of the pool, for the databases that are reached through one.
    pub pool_size: Option<u32>,
}

pub struct ConnectionPlanView {
    pub url: Seq<char>,
    pub pool_size: Option<u32>,
}

impl View for ConnectionPlan {
    type V = ConnectionPlanView;

    open spec fn view(&self) -> ConnectionPlanView {
        ConnectionPlanView { url: self.url@, pool_size: self.pool_size }
    }
}

/// The pool of an SQL database holds five connections unless the
/// configuration says otherwise.
pub open spec fn pool_size_of(configured: Option<u32>) -> u32 {
    match configured {
        Some(size) => size,
        None => 5,
    }
}

/// How a database is reached: at its URL, which must not be empty.
pub open spec fn connection_plan(
    url: Seq<char>,
    pool_size: Option<u32>,
    complaint: Seq<char>,
) -> Result<ConnectionPlanView, DatabaseErrorView> {
    if url.len() == 0 {
        Err(DatabaseErrorView::ConfigurationError(complaint))
    } else {
        Ok(ConnectionPlanView { url, pool_size })
    }
}

pub open spec fn plan_view(r: Result<ConnectionPlan, DatabaseError>) -> Result<
    ConnectionPlanView,
    DatabaseErrorView,
> {
    match r {
        Ok(plan) => Ok(plan@),
        Err(e) => Err(e@),
    }
}

fn plan(url: &String, pool_size: Option<u32>, complaint: &str) -> (r: Result<
    ConnectionPlan,
    DatabaseError,
>)
    ensures
        plan_view(r) == connection_plan(url@, pool_size, complaint@),
{
    if url.as_str().is_empty() {
        Err(DatabaseError::ConfigurationError(complaint.to_owned()))
    } else {
        Ok(ConnectionPlan { url: url.clone(), pool_size })
    }
}

/// How the PostgreSQL database of a configuration is reached.
pub fn postgres_connection(config: &PostgresConfig) -> (r: Result<ConnectionPlan, DatabaseError>)
    ensures
        plan_view(r) == connection_plan(
            config.connection_url@,
            Some(pool_size_of(config.connection_pool_size)),
            "PostgreSQL connection URL is required"@,
        ),
{
    let size = match config.connection_pool_size {
        Some(size) => size,
        None => 5,
    };
    plan(&config.connection_url, Some(size), "PostgreSQL connection URL is required")
}

/// How the MySQL database of a configuration is reached.
pub fn mysql_connection(config: &MySqlConfig) -> (r: Result<ConnectionPlan, DatabaseError>)
    ensures
        plan_view(r) == connection_plan(
            config.connection_url@,
            Some(pool_size_of(config.connection_pool_size)),
            "MySQL connection URL is required"@,
        ),
{
    let size = match config.connection_pool_size {
        Some(size) => size,
        None => 5,
    };
    plan(&config.connection_url, Some(size), "MySQL connection URL is required")
}

/// How the Redis store of a configuration is reached.
pub fn redis_connection(config: &RedisConfig) -> (r: Result<ConnectionPlan, DatabaseError>)
    ensures
        plan_view(r) == connection_plan(
            config.connection_url@,
            None,
            "Redis connection URL is required"@,
        ),
{
    plan(&config.connection_url, None, "Redis connection URL is required")
}

/// How the MongoDB store of a configuration is reached.
pub fn mongo_connection(config: &MongoConfig) -> (r: Result<ConnectionPlan, DatabaseError>)
    ensures
        plan_view(r) == connection_plan(
            config.connection_uri@,
            None,
            "MongoDB connection URI is required"@,
        ),
{
    plan(&config.connection_uri, None, "MongoDB connection URI is required")
}

} // verus!
