//! The process configuration, reduced to what the core needs: the secret
//! the session key is derived from.
//!
//! Discovering and reading the configuration file is I/O and stays with
//! the surrounding program; the structures here hold what it parsed, and
//! the getter hands the secret on unchanged.

use vstd::prelude::*;

verus! {

/// The session section of the configuration.
#[derive(Clone, Debug, PartialEq, Eq, Hash)]
pub struct SessionConfig {
    pub secret_key: String,
}

/// The whole configuration.
#[derive(Clone, Debug, PartialEq, Eq, Hash)]
pub struct GlobalConfig {
    pub session: SessionConfig,
}

/// The configuration as the rest of the application holds it.
pub struct Config {
    config: GlobalConfig,
}

impl Config {
    /// The configured session secret.
    pub closed spec fn spec_secret_key(&self) -> Seq<char> {
        self.config.session.secret_key@
    }

    /// Wraps a parsed configuration.
    pub fn new(config: GlobalConfig) -> (r: Config)
        ensures
            r.spec_secret_key() == config.session.secret_key@,
    {
        Config { config }
    }

    /// Hands out the configured session secret.
    pub fn get_secret_key(&self) -> (r: &str)
        ensures
            r@ == self.spec_secret_key(),
    {
        self.config.session.secret_key.as_str()
    }
}

} // verus!
