//! The configuration manager: the configuration in use and the files it is kept in.
use vstd::prelude::*;
use crate::config::GestureConfig;

verus! {

/// Name of the configuration file in the configuration directory.
pub const CONFIG_FILENAME: &'static str = "config.json";

/// Name of the backup of the previous configuration file.
pub const BACKUP_FILENAME: &'static str = "config.json.backup";

/// The configuration version this program writes.
pub const CONFIG_VERSION: u32 = 1;

/// Configuration manager
pub struct ConfigManager {
    config_path: String,
    backup_path: String,
    config: GestureConfig,
}

impl ConfigManager {
    /// The configuration in use.
    pub closed spec fn spec_config(&self) -> GestureConfig {
        self.config
    }

    /// The path of the configuration file.
    pub closed spec fn spec_config_path(&self) -> Seq<char> {
        self.config_path@
    }

    /// The path of the backup file.
    pub closed spec fn spec_backup_path(&self) -> Seq<char> {
        self.backup_path@
    }

    /// A manager of `config`, kept at `config_path` with its backup at `backup_path`.
    pub fn from_parts(config_path: String, backup_path: String, config: GestureConfig) -> (m: Self)
        ensures
            m.spec_config() == config,
            m.spec_config_path() == config_path@,
            m.spec_backup_path() == backup_path@,
    {
        ConfigManager { config_path, backup_path, config }
    }

    /// Get the current configuration
    pub fn config(&self) -> (r: &GestureConfig)
        ensures
            *r == self.spec_config(),
    {
        &self.config
    }

    /// Get mutable reference to configuration
    pub fn config_mut(&mut self) -> (r: &mut GestureConfig)
        ensures
            *r == old(self).spec_config(),
            final(self).spec_config() == *final(r),
            final(self).spec_config_path() == old(self).spec_config_path(),
            final(self).spec_backup_path() == old(self).spec_backup_path(),
    {
        &mut self.config
    }

    /// The path of the configuration file.
    pub fn config_path(&self) -> (r: &str)
        ensures
            r@ == self.spec_config_path(),
    {
        self.config_path.as_str()
    }

    /// The path of the backup file.
    pub fn backup_path(&self) -> (r: &str)
        ensures
            r@ == self.spec_backup_path(),
    {
        self.backup_path.as_str()
    }

    /// Takes `loaded`, the configuration read again from the file, as the one in use.
    pub fn reload(&mut self, loaded: GestureConfig)
        ensures
            final(self).spec_config() == loaded,
            final(self).spec_config_path() == old(self).spec_config_path(),
            final(self).spec_backup_path() == old(self).spec_backup_path(),
    {
        self.config = loaded;
    }

    /// Whether the configuration has the version this program writes (another version
    /// is still used, with a warning).
    pub fn has_known_version(&self) -> (r: bool)
        ensures
            r == (self.spec_config().version == CONFIG_VERSION),
    {
        self.config.version == CONFIG_VERSION
    }
}

} // verus!
