//! The settings of a program, kept as one text.
use vstd::prelude::*;

verus! {

/// Holds the current settings.
pub struct ConfigManager {
    settings: String,
}

impl ConfigManager {
    /// The current settings.
    pub closed spec fn current(&self) -> String {
        self.settings
    }

    /// A manager with the settings `"Default settings"`.
    pub fn new() -> (manager: Self)
        ensures
            manager.current()@ == "Default settings"@,
    {
        ConfigManager { settings: "Default settings".to_string() }
    }

    /// A copy of the current settings.
    pub fn get_settings(&self) -> (settings: String)
        ensures
            settings == self.current(),
    {
        self.settings.clone()
    }

    /// Replaces the settings.
    pub fn set_settings(&mut self, settings: String)
        ensures
            final(self).current() == settings,
    {
        self.settings = settings;
    }
}

} // verus!
