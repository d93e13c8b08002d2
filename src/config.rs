use vstd::prelude::*;

verus! {

/// Settings of the terminal client: the provider credential and the path
/// of its local database.
#[derive(Debug)]
pub struct Config {
    pub openai_api_key: String,
    pub surreal_db_path: String,
}

impl Config {
    pub fn new(openai_api_key: String, surreal_db_path: String) -> (r: Config)
        ensures
            r.openai_api_key@ == openai_api_key@,
            r.surreal_db_path@ == surreal_db_path@,
    {
        Config { openai_api_key, surreal_db_path }
    }
}

} // verus!
