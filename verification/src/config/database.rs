use crate::text::join;
use vstd::prelude::*;

verus! {

/// Settings of a datastore that lives in one file.
#[derive(Debug, Clone)]
pub struct Database {
    /// The kind of datastore: `sqlite`.
    pub db_type: String,
    /// The file that holds it.
    pub path: String,
    /// The most connections the pool holds.
    pub max_connections: u32,
    /// The fewest connections the pool holds.
    pub min_connections: u32,
}

impl Default for Database {
    fn default() -> (database: Database)
        ensures
            database.is_default(),
    {
        Database {
            db_type: "sqlite".to_owned(),
            path: "./data/db.sqlite".to_owned(),
            max_connections: 100,
            min_connections: 3,
        }
    }
}

impl Database {
    /// The settings that hold where the configuration names none.
    pub open spec fn is_default(&self) -> bool {
        &&& self.db_type@ == "sqlite"@
        &&& self.path@ == "./data/db.sqlite"@
        &&& self.max_connections == 100
        &&& self.min_connections == 3
    }

    /// The address under which the pool opens the file.
    pub fn url(&self) -> (url: String)
        ensures
            url@ == "sqlite://"@ + self.path@,
    {
        join("sqlite://", self.path.as_str())
    }
}

} // verus!
