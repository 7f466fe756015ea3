//! The terminal's settings, as held in memory.
use vstd::prelude::*;

verus! {

/// The terminal's configuration.
#[derive(PartialEq, Eq, Debug, Clone)]
pub struct Setting {
    pub database_url: String,
}

impl Setting {
    /// Settings with no database configured: what a missing or unreadable
    /// settings document stands for.
    pub fn new() -> (r: Setting)
        ensures
            r.database_url@ == Seq::<char>::empty(),
    {
        Setting { database_url: String::new() }
    }
}

impl Default for Setting {
    fn default() -> (r: Setting)
        ensures
            r.database_url@ == Seq::<char>::empty(),
    {
        Setting::new()
    }
}

} // verus!
