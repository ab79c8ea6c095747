//! The configuration: whether volumes are mounted by default, and what is
//! set for single volumes, found by their UUID.
use vstd::prelude::*;
use vstd::hash_map::StringHashMap;
use crate::text::clone_opt_string;

verus! {

/// Settings that hold for every volume unless its own settings say
/// otherwise.
#[derive(Debug, PartialEq, Eq, Clone, Copy)]
pub struct Settings {
    /// Whether filesystems are mounted as soon as they appear.
    pub automount: bool,
}

impl Default for Settings {
    /// Nothing is mounted unless the configuration asks for it.
    fn default() -> (settings: Self)
        ensures
            settings.automount == false,
    {
        Settings { automount: false }
    }
}

/// Settings of one volume.
#[derive(Debug, PartialEq, Eq)]
pub struct FsSettings {
    /// Whether the filesystem is mounted as soon as it appears.
    pub automount: Option<bool>,
    /// A script to run once the filesystem is mounted.
    pub run: Option<String>,
    /// The password that unlocks the volume.
    pub password: Option<String>,
    /// The path of a keyfile that unlocks the volume.
    pub keyfile: Option<String>,
}

/// An `FsSettings` with its strings as text.
pub ghost struct FsSettingsView {
    pub automount: Option<bool>,
    pub run: Option<Seq<char>>,
    pub password: Option<Seq<char>>,
    pub keyfile: Option<Seq<char>>,
}

impl View for FsSettings {
    type V = FsSettingsView;

    open spec fn view(&self) -> FsSettingsView {
        FsSettingsView {
            automount: self.automount,
            run: self.run.deep_view(),
            password: self.password.deep_view(),
            keyfile: self.keyfile.deep_view(),
        }
    }
}

impl DeepView for FsSettings {
    type V = FsSettingsView;

    open spec fn deep_view(&self) -> FsSettingsView {
        self@
    }
}

impl Clone for FsSettings {
    fn clone(&self) -> (copy: Self)
        ensures
            copy@ == self@,
    {
        FsSettings {
            automount: self.automount,
            run: clone_opt_string(&self.run),
            password: clone_opt_string(&self.password),
            keyfile: clone_opt_string(&self.keyfile),
        }
    }
}

/// The whole configuration.
pub struct Config {
    /// The settings for volumes that have none of their own.
    pub settings: Settings,
    /// The settings of single volumes, by UUID.
    pub uuid: Option<StringHashMap<FsSettings>>,
}

/// A `Config` as the default and a map from UUID to settings.
pub ghost struct ConfigView {
    pub automount: bool,
    pub overrides: Map<Seq<char>, FsSettingsView>,
}

impl ConfigView {
    /// The settings of the volume `uuid`, if it has any.
    pub open spec fn override_for(self, uuid: Seq<char>) -> Option<FsSettingsView> {
        if self.overrides.contains_key(uuid) {
            Some(self.overrides[uuid])
        } else {
            None
        }
    }
}

impl View for Config {
    type V = ConfigView;

    open spec fn view(&self) -> ConfigView {
        ConfigView {
            automount: self.settings.automount,
            overrides: match self.uuid {
                Some(overrides) => overrides@.map_values(|s: FsSettings| s@),
                None => Map::empty(),
            },
        }
    }
}

impl Config {
    /// The configuration that is used where none is given: nothing is
    /// mounted automatically, and no volume has settings of its own.
    pub fn new() -> (config: Self)
        ensures
            config@ == (ConfigView { automount: false, overrides: Map::empty() }),
    {
        Config { settings: Settings::default(), uuid: None }
    }

    /// The settings of the volume `uuid`, if it has any.
    pub fn get_uuid_settings(&self, uuid: &str) -> (found: Option<&FsSettings>)
        ensures
            found.deep_view() == self@.override_for(uuid@),
    {
        match &self.uuid {
            Some(overrides) => overrides.get(uuid),
            None => None,
        }
    }

    /// Gives the volume `uuid` the settings `settings`, in place of any it
    /// had.
    pub fn set_uuid_settings(&mut self, uuid: String, settings: FsSettings)
        ensures
            final(self)@ == (ConfigView {
                overrides: old(self)@.overrides.insert(uuid@, settings@),
                ..old(self)@
            }),
    {
        let ghost before = self@.overrides;
        let mut overrides = match self.uuid.take() {
            Some(overrides) => overrides,
            None => StringHashMap::new(),
        };
        overrides.insert(uuid, settings);
        self.uuid = Some(overrides);
        assert(self@.overrides =~= before.insert(uuid@, settings@));
    }
}

} // verus!
