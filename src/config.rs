use vstd::prelude::*;

verus! {

/// Where the exercise store lives: the database URL for everyday use and the
/// one that tests run against.
#[derive(Debug)]
pub struct DbConfig {
    pub live_url: String,
    pub test_url: String,
}

impl DbConfig {
    pub fn new(live_url: String, test_url: String) -> (r: DbConfig)
        ensures
            r.live_url@ == live_url@,
            r.test_url@ == test_url@,
    {
        DbConfig { live_url, test_url }
    }

    pub fn live_url(&self) -> (r: &str)
        ensures
            r@ == self.live_url@,
    {
        self.live_url.as_str()
    }

    pub fn test_url(&self) -> (r: &str)
        ensures
            r@ == self.test_url@,
    {
        self.test_url.as_str()
    }
}

} // verus!
