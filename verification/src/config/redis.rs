use vstd::prelude::*;

verus! {

/// Settings of the cache server.
#[derive(Debug, Clone)]
pub struct Redis {
    /// Where the server is.
    pub url: String,
}

impl Redis {
    /// The settings that hold where the configuration names none.
    pub open spec fn is_default(&self) -> bool {
        self.url@ == "redis://127.0.0.1:6379"@
    }
}

impl Default for Redis {
    fn default() -> (redis: Redis)
        ensures
            redis.is_default(),
    {
        Redis { url: "redis://127.0.0.1:6379".to_owned() }
    }
}

/// How long a cached value lives, in seconds, where the caller names no time.
pub const DEFAULT_TTL: u64 = 300;

/// The time a cached value lives: the one asked for, or the default.
pub fn ttl_or_default(ttl: Option<u64>) -> (seconds: u64)
    ensures
        seconds == match ttl {
            Some(t) => t,
            None => DEFAULT_TTL,
        },
{
    match ttl {
        Some(t) => t,
        None => DEFAULT_TTL,
    }
}

} // verus!
