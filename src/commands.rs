use crate::version::VersionReq;
use vstd::prelude::*;

verus! {

/// The top-level commands of the tool.
#[derive(Debug, Clone)]
pub enum Commands {
    Runtime(RuntimeCommands),
}

/// The commands that manage runtime versions.
#[derive(Debug, Clone)]
pub enum RuntimeCommands {
    /// List all available runtime versions
    ListAll,
    /// List locally installed runtime versions
    ListInstalled,
    /// Install a specific runtime version
    Install { version: String },
    /// Update the default runtime version to the latest available
    UpdateDefault,
    /// Update the runtime version for the local package
    UpdateLocal,
    /// Set the global default version
    SetDefault { version: String },
    /// Set the local package ambient runtime version
    SetLocal { version: String },
    /// Show where the settings file is located
    ShowSettingsPath,
    /// Remove all installed runtime versions
    UninstallAll,
}

/// What the engine reads of a package manifest.
#[derive(Debug, Clone)]
pub struct AmbientToml {
    pub package: Package,
}

/// The package table of a package manifest.
#[derive(Debug, Clone)]
pub struct Package {
    pub ambient_version: Option<VersionReq>,
}

impl AmbientToml {
    /// The runtime requirement that the package declares, if any.
    pub fn requirement(&self) -> (r: Option<VersionReq>)
        ensures
            match r {
                Some(q) => self.package.ambient_version is Some
                    && q@ == self.package.ambient_version->Some_0@,
                None => self.package.ambient_version is None,
            },
    {
        match &self.package.ambient_version {
            Some(q) => Some(q.duplicate()),
            None => None,
        }
    }
}

} // verus!
