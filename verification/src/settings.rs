//! The stored settings.

use vstd::prelude::*;

verus! {

/// Where the settings lie below the home directory.
pub const SETTINGS_PATH: &'static str = ".config/hint-control/settings.json";

/// Where the Qt edition keeps its settings below the home directory.
pub const LEGACY_SETTINGS_PATH: &'static str = ".config/hint-control-qt/settings.json";

/// The home directory where the environment names none.
pub const DEFAULT_HOME: &'static str = ".";

/// Where to log in, as whom, and the password if it is to be remembered.
#[derive(Debug)]
pub struct Settings {
    pub gateway_ip: String,
    pub username: String,
    pub password: Option<String>,
}

impl Clone for Settings {
    fn clone(&self) -> (copy: Self)
        ensures
            copy == *self,
    {
        Settings {
            gateway_ip: self.gateway_ip.clone(),
            username: self.username.clone(),
            password: self.password.clone(),
        }
    }
}

/// Whether these are the settings of a first start.
pub open spec fn is_default(settings: Settings) -> bool {
    &&& settings.gateway_ip@ == "192.168.12.1"@
    &&& settings.username@ == "admin"@
    &&& settings.password is None
}

impl Default for Settings {
    fn default() -> (settings: Self)
        ensures
            is_default(settings),
    {
        Settings {
            gateway_ip: "192.168.12.1".to_owned(),
            username: "admin".to_owned(),
            password: None,
        }
    }
}

/// The stored text to read the settings from: the current one, if there is one.
pub open spec fn preferred_text(current: Option<String>, legacy: Option<String>) -> Option<String> {
    if current is Some {
        current
    } else {
        legacy
    }
}

/// Whether these are the settings to start with.
pub open spec fn is_loaded_from(settings: Settings, stored: Option<Settings>) -> bool {
    match stored {
        Some(known) => settings == known,
        None => is_default(settings),
    }
}

impl Settings {
    /// The stored text to read the settings from: the current file if it could be
    /// read, else that of the Qt edition.
    pub fn stored_text(current: Option<String>, legacy: Option<String>) -> (text: Option<String>)
        ensures
            text == preferred_text(current, legacy),
    {
        match current {
            Some(text) => Some(text),
            None => legacy,
        }
    }

    /// The settings to start with: the stored ones if they could be read and
    /// understood, else the defaults.
    pub fn load(stored: Option<Settings>) -> (settings: Settings)
        ensures
            is_loaded_from(settings, stored),
    {
        match stored {
            Some(known) => known,
            None => Settings::default(),
        }
    }
}

} // verus!
