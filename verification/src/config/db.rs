use vstd::prelude::*;

verus! {

/// Settings of the connection pool of the datastore.
#[derive(Debug, Clone)]
pub struct Db {
    /// Where the datastore is.
    pub url: String,
    /// The most connections the pool holds.
    pub max_connections: u32,
    /// The fewest connections the pool holds.
    pub min_connections: u32,
}

impl Db {
    /// The settings that hold where the configuration names none.
    pub open spec fn is_default(&self) -> bool {
        &&& self.url@ == "sqlite://./data/db.sqlite?mode=rwc"@
        &&& self.max_connections == 100
        &&& self.min_connections == 3
    }
}

impl Default for Db {
    fn default() -> (db: Db)
        ensures
            db.is_default(),
    {
        Db {
            url: "sqlite://./data/db.sqlite?mode=rwc".to_owned(),
            max_connections: 100,
            min_connections: 3,
        }
    }
}

} // verus!
