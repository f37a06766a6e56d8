//! The configuration of a service, loaded once and read from everywhere.
use vstd::prelude::*;

verus! {

/// What a service needs to know to start.
#[derive(Debug)]
pub struct Config {
    pub database_url: String,
    pub cache_size: usize,
    pub max_connections: usize,
}

/// Holds the configuration once it has been loaded.
pub struct ConfigManager {
    config: Option<Config>,
}

impl ConfigManager {
    /// The configuration, if one has been loaded.
    pub closed spec fn loaded(&self) -> Option<Config> {
        self.config
    }

    /// A manager without a configuration.
    pub fn new() -> (manager: Self)
        ensures
            manager.loaded() is None,
    {
        ConfigManager { config: None }
    }

    /// Takes `config` as the configuration, in place of an earlier one.
    pub fn set_config(&mut self, config: Config)
        ensures
            final(self).loaded() == Some(config),
    {
        self.config = Some(config);
    }

    /// Whether a configuration has been loaded.
    pub fn is_loaded(&self) -> (loaded: bool)
        ensures
            loaded == self.loaded() is Some,
    {
        self.config.is_some()
    }

    /// A copy of the configuration. One must have been loaded.
    pub fn get_config(&self) -> (config: Config)
        requires
            self.loaded() is Some,
        ensures
            Some(config) == self.loaded(),
    {
        match &self.config {
            Some(config) => Config {
                database_url: config.database_url.clone(),
                cache_size: config.cache_size,
                max_connections: config.max_connections,
            },
            None => Config { database_url: String::new(), cache_size: 0, max_connections: 0 },
        }
    }
}

} // verus!
