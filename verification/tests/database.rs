use bouncer::config::{
    DatabaseType, DatabasesConfig, MongoConfig, MySqlConfig, PostgresConfig, RedisConfig,
};
use bouncer::database::{
    mongo_connection, mysql_connection, postgres_connection, redis_connection,
    validate_database_config, DatabaseError,
};

fn message(r: Result<(), DatabaseError>) -> String {
    r.unwrap_err().to_string()
}

#[test]
fn unknown_provider_is_refused() {
    let config = DatabasesConfig::default();
    assert_eq!(
        message(validate_database_config(&config, "sqlite")),
        "Database configuration error: Unknown database provider: sqlite"
    );
}

#[test]
fn provider_without_configuration_is_refused() {
    let config = DatabasesConfig::default();
    assert_eq!(
        message(validate_database_config(&config, "postgres")),
        "Database configuration error: PostgreSQL database configuration is required but not provided"
    );
    assert_eq!(
        message(validate_database_config(&config, "mysql")),
        "Database configuration error: MySQL database configuration is required but not provided"
    );
    assert_eq!(
        message(validate_database_config(&config, "redis")),
        "Database configuration error: Redis database configuration is required but not provided"
    );
    assert_eq!(
        message(validate_database_config(&config, "mongo")),
        "Database configuration error: MongoDB database configuration is required but not provided"
    );
}

#[test]
fn configured_provider_is_accepted() {
    let config = DatabasesConfig {
        redis: Some(RedisConfig::default()),
        postgres: Some(PostgresConfig::default()),
        mysql: Some(MySqlConfig::default()),
        mongo: Some(MongoConfig::default()),
    };
    for provider in ["postgres", "mysql", "redis", "mongo"] {
        assert!(validate_database_config(&config, provider).is_ok());
    }
    let only_redis = DatabasesConfig { redis: Some(RedisConfig::default()), ..Default::default() };
    assert!(validate_database_config(&only_redis, "redis").is_ok());
    assert!(validate_database_config(&only_redis, "mongo").is_err());
}

#[test]
fn provider_names() {
    assert_eq!(DatabaseType::from_provider("redis"), Some(DatabaseType::Redis));
    assert_eq!(DatabaseType::from_provider("Redis"), None);
    assert_eq!(DatabaseType::Mongo.product(), "MongoDB");
}

#[test]
fn every_kind_of_error_has_its_words() {
    let m = "m".to_string();
    assert_eq!(DatabaseError::ConnectionError(m.clone()).to_string(), "Database connection error: m");
    assert_eq!(
        DatabaseError::ConfigurationError(m.clone()).to_string(),
        "Database configuration error: m"
    );
    assert_eq!(DatabaseError::QueryError(m.clone()).to_string(), "Database query error: m");
    assert_eq!(
        DatabaseError::ConversionError(m.clone()).to_string(),
        "Database data conversion error: m"
    );
    assert_eq!(DatabaseError::Other(m).to_string(), "Database error: m");
}

#[test]
fn databases_are_reached_at_their_url() {
    let pg = PostgresConfig {
        connection_url: "postgres://u@h/db".to_string(),
        connection_pool_size: Some(12),
        ..Default::default()
    };
    let plan = postgres_connection(&pg).ok().unwrap();
    assert_eq!(plan.url, "postgres://u@h/db");
    assert_eq!(plan.pool_size, Some(12));
    let my = MySqlConfig { connection_url: "mysql://h".to_string(), ..Default::default() };
    assert_eq!(mysql_connection(&my).ok().unwrap().pool_size, Some(5));
    let redis = RedisConfig { connection_url: "redis://h".to_string(), ..Default::default() };
    let plan = redis_connection(&redis).ok().unwrap();
    assert_eq!(plan.url, "redis://h");
    assert_eq!(plan.pool_size, None);
    let mongo = MongoConfig {
        connection_uri: "mongodb://h".to_string(),
        database: "d".to_string(),
        options: None,
    };
    assert_eq!(mongo_connection(&mongo).ok().unwrap().url, "mongodb://h");
}

#[test]
fn empty_url_is_refused() {
    assert_eq!(
        postgres_connection(&PostgresConfig::default()).err().unwrap().to_string(),
        "Database configuration error: PostgreSQL connection URL is required"
    );
    assert_eq!(
        mysql_connection(&MySqlConfig::default()).err().unwrap().to_string(),
        "Database configuration error: MySQL connection URL is required"
    );
    assert_eq!(
        redis_connection(&RedisConfig::default()).err().unwrap().to_string(),
        "Database configuration error: Redis connection URL is required"
    );
    assert_eq!(
        mongo_connection(&MongoConfig::default()).err().unwrap().to_string(),
        "Database configuration error: MongoDB connection URI is required"
    );
}
