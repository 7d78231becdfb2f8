use vstd::prelude::*;
use crate::profile::Profile;

verus! {

/// Whether a newer release is known, and whether the user chose not to be told
/// about it again.
pub struct Updates {
    pub version_name: Option<String>,
    pub skip_version: bool,
}

/// The state kept between sessions.
pub struct Settings {
    pub profiles: Vec<Profile>,
    pub ui_state: Profile,
    pub updates: Updates,
}

impl Updates {
    pub fn new(version_name: Option<String>, skip_version: bool) -> (r: Updates)
        ensures
            r == (Updates { version_name, skip_version }),
    {
        Updates { version_name, skip_version }
    }

    /// Whether the user is to be told about an available update.
    pub fn should_notify(&self) -> (r: bool)
        ensures
            r == (!self.skip_version && self.version_name is Some),
    {
        !self.skip_version && self.version_name.is_some()
    }
}

impl Settings {
    pub fn new(profiles: Vec<Profile>, ui_state: Profile, updates: Updates) -> (r: Settings)
        ensures
            r == (Settings { profiles, ui_state, updates }),
    {
        Settings { profiles, ui_state, updates }
    }
}

} // verus!
