//! The application's configuration, read once from the environment.
use vstd::prelude::*;

verus! {

/// Application Config
#[derive(Clone, Debug)]
pub struct Config {
    /// The environment
    pub env: String,
    /// The port to bind to
    pub port: u16,
    /// Scylla node
    pub scylla_node: String,
}

impl Config {
    /// Whether the application runs in the development environment.
    pub fn is_dev(&self) -> (dev: bool)
        ensures
            dev == (self.env@ == "development"@),
    {
        let development = String::from_str("development");
        self.env == development
    }
}

/// The configuration that loading gave: the application cannot start
/// without one, so loading must have succeeded.
pub fn get_config<E>(loaded: &'static Result<Config, E>) -> (config: &'static Config)
    requires
        loaded is Ok,
    ensures
        *config == loaded->Ok_0,
{
    match loaded {
        Ok(config) => config,
        Err(_) => unreached(),
    }
}

} // verus!
