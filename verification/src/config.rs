//! Engine configuration.

use vstd::prelude::*;

verus! {

/// Settings that an engine is built with and keeps for its lifetime.
#[derive(Clone, Copy, Debug, PartialEq, Eq, Structural)]
pub struct Config {
    /// Whether particles are held at the lower boundary of the visible
    /// region instead of being removed once they pass it.
    pub barriers_on: bool,
}

impl Config {
    /// The default configuration: barriers enabled.
    pub fn new() -> (config: Config)
        ensures
            config.barriers_on,
    {
        Config { barriers_on: true }
    }
}

} // verus!
