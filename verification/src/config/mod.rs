use vstd::prelude::*;

pub mod database;
pub mod db;
pub mod file;
pub mod logger;
pub mod redis;
pub mod server;
pub mod tls;

use db::Db;
use logger::Logger;
use redis::Redis;
use server::Server;

verus! {

/// Everything the application is configured with.
#[derive(Debug, Clone)]
pub struct Config {
    /// The HTTP server.
    pub server: Server,
    /// The connection pool of the datastore.
    pub db: Db,
    /// The logger.
    pub logger: Logger,
    /// The cache server.
    pub redis: Redis,
}

impl Default for Config {
    /// The configuration in which every part has its own defaults.
    fn default() -> (config: Config)
        ensures
            config.server.is_default(),
            config.db.is_default(),
            config.logger.is_default(),
            config.redis.is_default(),
    {
        Config {
            server: Server::default(),
            db: Db::default(),
            logger: Logger::default(),
            redis: Redis::default(),
        }
    }
}

} // verus!
