//! Where the application keeps its statement documents and its database.

use vstd::prelude::*;

verus! {

/// The directories the surrounding application reads and writes; the core
/// only carries them.
#[derive(Clone, Debug)]
pub struct PathSettings {
    pub statements_path: String,
    pub database_path: String,
}

impl Default for PathSettings {
    /// Paths relative to the working directory.
    fn default() -> (s: PathSettings)
        ensures
            s.statements_path@ == "statements/"@,
            s.database_path@ == "data/"@,
    {
        PathSettings {
            statements_path: String::from_str("statements/"),
            database_path: String::from_str("data/"),
        }
    }
}

} // verus!
