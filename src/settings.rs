//! Where the store and the key live, and where these settings were read from.
use vstd::prelude::*;

verus! {

/// The file name of the settings file.
pub const SETTINGS_FILE: &'static str = "pass4thewin.toml";

/// A setting that is not known.
#[derive(Clone, Copy, Debug, PartialEq, Eq, Structural)]
pub enum SettingsError {
    /// No password store has been set up.
    StoreNotInitiated,
    /// The settings were not read from a file.
    NoSettingsFile,
}

/// The user's settings.
#[derive(Clone, Debug)]
pub struct Settings {
    /// The file the settings were read from, to be written back to.
    pub path: Option<String>,
    /// The root of the password store.
    pub password_store: Option<String>,
    /// The file holding the OpenPGP key.
    pub pgp_key: Option<String>,
}

/// The text of an optional string.
pub open spec fn opt_view(o: Option<String>) -> Option<Seq<char>> {
    match o {
        Some(s) => Some(s@),
        None => None,
    }
}

impl Settings {
    /// Settings with nothing set.
    pub fn new() -> (r: Settings)
        ensures
            r.path is None,
            r.password_store is None,
            r.pgp_key is None,
    {
        Settings { path: None, password_store: None, pgp_key: None }
    }

    /// The settings found first: those next to the program, else those in the user's
    /// application data, else empty settings.
    pub fn try_load(from_binary_path: Option<Settings>, from_roaming_app_data: Option<Settings>) -> (r:
        Settings)
        ensures
            from_binary_path is Some ==> r == from_binary_path->0,
            from_binary_path is None && from_roaming_app_data is Some ==> r
                == from_roaming_app_data->0,
            from_binary_path is None && from_roaming_app_data is None ==> (r.path is None
                && r.password_store is None && r.pgp_key is None),
    {
        match from_binary_path {
            Some(s) => s,
            None => match from_roaming_app_data {
                Some(s) => s,
                None => Settings::new(),
            },
        }
    }

    /// Sets the root of the password store.
    pub fn set_password_store_path(&mut self, path: &str)
        ensures
            opt_view(final(self).password_store) == Some(path@),
            final(self).pgp_key == old(self).pgp_key,
            final(self).path == old(self).path,
    {
        self.password_store = Some(String::from_str(path));
    }

    /// The root of the password store; `StoreNotInitiated` when none is set.
    pub fn get_password_store_path(&self) -> (r: Result<&str, SettingsError>)
        ensures
            match r {
                Ok(p) => opt_view(self.password_store) == Some(p@),
                Err(e) => self.password_store is None && e == SettingsError::StoreNotInitiated,
            },
    {
        match &self.password_store {
            Some(p) => Ok(p.as_str()),
            None => Err(SettingsError::StoreNotInitiated),
        }
    }

    /// Sets the file holding the OpenPGP key.
    pub fn set_pgp_key_path(&mut self, path: &str)
        ensures
            opt_view(final(self).pgp_key) == Some(path@),
            final(self).password_store == old(self).password_store,
            final(self).path == old(self).path,
    {
        self.pgp_key = Some(String::from_str(path));
    }

    /// The file holding the OpenPGP key; `StoreNotInitiated` when none is set.
    pub fn get_pgp_key_path(&self) -> (r: Result<&str, SettingsError>)
        ensures
            match r {
                Ok(p) => opt_view(self.pgp_key) == Some(p@),
                Err(e) => self.pgp_key is None && e == SettingsError::StoreNotInitiated,
            },
    {
        match &self.pgp_key {
            Some(p) => Ok(p.as_str()),
            None => Err(SettingsError::StoreNotInitiated),
        }
    }

    /// Sets the file the settings are written to.
    pub fn set_settings_path(&mut self, path: &str)
        ensures
            opt_view(final(self).path) == Some(path@),
            final(self).password_store == old(self).password_store,
            final(self).pgp_key == old(self).pgp_key,
    {
        self.path = Some(String::from_str(path));
    }

    /// The file the settings were read from; `NoSettingsFile` when there is none.
    pub fn get_settings_path(&self) -> (r: Result<&str, SettingsError>)
        ensures
            match r {
                Ok(p) => opt_view(self.path) == Some(p@),
                Err(e) => self.path is None && e == SettingsError::NoSettingsFile,
            },
    {
        match &self.path {
            Some(p) => Ok(p.as_str()),
            None => Err(SettingsError::NoSettingsFile),
        }
    }
}

impl Default for Settings {
    fn default() -> (r: Self)
        ensures
            r.path is None,
            r.password_store is None,
            r.pgp_key is None,
    {
        Settings::new()
    }
}

} // verus!
