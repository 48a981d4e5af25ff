//! The deployment settings and how they are loaded.
use vstd::prelude::*;

verus! {

/// The settings of the deployment plugin.
///
/// `deployment_type` is 0 for the game's own deployment, 1 to deploy the
/// lowest rated units and 2 to deploy units at random; `random_emblems`
/// hands the available emblems out at random to the deployed units.
#[derive(Clone, Copy, Debug, PartialEq, Eq)]
pub struct DeploymentConfig {
    pub deployment_type: i32,
    pub random_emblems: bool,
}

/// What reading the settings file gave.
#[derive(Clone, Copy, Debug, PartialEq, Eq)]
pub enum ConfigLoad {
    /// The file could not be read (missing or unreadable).
    Unreadable,
    /// The file was read but its text is not a valid settings document.
    Malformed,
    /// The file was read and parsed into these settings.
    Parsed(DeploymentConfig),
}

pub open spec fn spec_default_config() -> DeploymentConfig {
    DeploymentConfig { deployment_type: 0, random_emblems: false }
}

/// The settings chosen for a load outcome, and whether a fresh settings
/// file is to be written: the defaults, written anew, wherever the file
/// could not be used.
pub open spec fn spec_config_from_load(load: ConfigLoad) -> (DeploymentConfig, bool) {
    match load {
        ConfigLoad::Parsed(c) => (c, false),
        ConfigLoad::Malformed => (spec_default_config(), true),
        ConfigLoad::Unreadable => (spec_default_config(), true),
    }
}

impl DeploymentConfig {
    /// Settings from what reading the settings file gave: the parsed
    /// settings, or the defaults where the file could not be used. The
    /// `bool` is true where the file could not be used (not read, or not
    /// parsed, as when settings were added to the file's format), in which
    /// case the defaults are to be saved as a new file.
    pub fn new(load: ConfigLoad) -> (r: (DeploymentConfig, bool))
        ensures
            r == spec_config_from_load(load),
    {
        match load {
            ConfigLoad::Parsed(c) => (c, false),
            ConfigLoad::Malformed => (DeploymentConfig::default(), true),
            ConfigLoad::Unreadable => (DeploymentConfig::default(), true),
        }
    }

    /// The default settings: the game's own deployment, emblems not
    /// randomized.
    pub fn default() -> (c: DeploymentConfig)
        ensures
            c == spec_default_config(),
    {
        DeploymentConfig { deployment_type: 0, random_emblems: false }
    }
}

/// The defaults are the game's own deployment with emblems not randomized;
/// parsed settings are used as they are and nothing is written, and a file
/// that cannot be used, whether unreadable or malformed, gives the defaults
/// and is written anew.
pub proof fn lemma_load_outcomes(c: DeploymentConfig)
    ensures
        spec_default_config().deployment_type == 0,
        !spec_default_config().random_emblems,
        spec_config_from_load(ConfigLoad::Parsed(c)) == (c, false),
        spec_config_from_load(ConfigLoad::Malformed) == (DeploymentConfig { deployment_type: 0, random_emblems: false }, true),
        spec_config_from_load(ConfigLoad::Unreadable) == (DeploymentConfig { deployment_type: 0, random_emblems: false }, true),
{
}

} // verus!
