use vstd::prelude::*;

verus! {

/// Settings of the document store.
#[derive(Debug, Clone)]
pub struct Mongodb {
    /// Where the server is.
    pub url: String,
}

impl Mongodb {
    /// The settings that hold where the configuration names none.
    pub open spec fn is_default(&self) -> bool {
        self.url@ == "mongodb://192.168.64.2:27017"@
    }
}

impl Default for Mongodb {
    fn default() -> (mongodb: Mongodb)
        ensures
            mongodb.is_default(),
    {
        Mongodb { url: "mongodb://192.168.64.2:27017".to_owned() }
    }
}

} // verus!
