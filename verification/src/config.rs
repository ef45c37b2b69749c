//! The application configuration as plain data. Reading it from the
//! process environment is transport work and stays outside the library;
//! these are the shapes it fills.

use vstd::prelude::*;

verus! {

#[derive(Debug, Clone)]
pub struct AppConfigJWT {
    pub private_secret_pem_path: Option<String>,
    pub public_secret_pem_path: String,
    pub issuer: String,
    pub audience: String,
    pub expires_in_minutes: i64,
    pub kid: Option<String>,
}

#[derive(Debug, Clone)]
pub struct AppDatabaseMongoDBConfig {
    pub uri: String,
    pub database: String,
}

#[derive(Debug, Clone)]
pub struct AppDatabaseRedisConfig {
    pub uri: String,
    pub default_ttl: Option<u64>,
    pub max_connections: Option<u32>,
    pub app_space_name: Option<String>,
}

#[derive(Debug, Clone)]
pub struct AppDatabaseNeo4jConfig {
    pub uri: String,
    pub username: String,
    pub password: String,
    pub encrypted: bool,
    pub database: String,
}

#[derive(Debug, Clone)]
pub struct AppDatabaseConfig {
    pub mongo: Option<AppDatabaseMongoDBConfig>,
    pub redis: Option<AppDatabaseRedisConfig>,
    pub neo4j: Option<AppDatabaseNeo4jConfig>,
}

#[derive(Debug, Clone)]
pub struct AppConfig {
    pub is_prod: bool,
    pub log_level: String,
    pub jwt: AppConfigJWT,
    pub database: AppDatabaseConfig,
    pub bind_addr: String,
    pub metrics_addr: String,
}

} // verus!
