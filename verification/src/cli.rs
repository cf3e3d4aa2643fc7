//! Command-line argument data. The surrounding program parses the real
//! command line into these plain structures.

use vstd::prelude::*;

verus! {

/// Top-level invocation: global flags and the chosen command.
#[derive(Debug, Clone)]
pub struct Cli {
    /// Disable colored output.
    pub no_color: bool,
    pub command: Command,
}

/// The commands the launcher understands.
#[derive(Debug, Clone)]
pub enum Command {
    /// First-run setup wizard
    Setup(SetupArgs),
    /// Update the application archive and runtime to the latest version
    Upgrade(UpgradeArgs),
    /// View or edit configuration
    Config(ConfigArgs),
    /// Runtime management
    Jre(JreArgs),
    /// Extensions and plugins
    Ext(PluginArgs),
    /// System diagnostics
    Doctor(DoctorArgs),
    /// Show version information
    Version(VersionArgs),
    /// Pass-through to the application (run, mock, init, and the rest)
    External(Vec<String>),
}

#[derive(Debug, Clone)]
pub struct SetupArgs {
    /// Install all components non-interactively.
    pub all: bool,
    /// Install specific components: jar, jre.
    pub components: Option<Vec<String>>,
    /// Force download even if components are already installed.
    pub force: bool,
    /// Specific runtime major version to install (e.g. 17, 21).
    pub java_version: Option<String>,
}

#[derive(Debug, Clone)]
pub struct UpgradeArgs {
    /// Non-interactive mode (upgrade all components).
    pub all: bool,
    /// Install a specific version instead of the latest.
    pub version: Option<String>,
}

#[derive(Debug, Clone)]
pub struct ConfigArgs {
    /// Edit the global configuration.
    pub global: bool,
    /// Edit the project configuration.
    pub local: bool,
    /// Print the resolved (merged) configuration.
    pub show: bool,
}

#[derive(Debug, Clone)]
pub struct JreArgs {
    pub subcommand: JreSubcommand,
}

#[derive(Debug, Clone)]
pub enum JreSubcommand {
    /// List installed runtime versions
    List,
    /// Check runtime health and compatibility
    Doctor,
}

#[derive(Debug, Clone)]
pub struct PluginArgs {
    pub subcommand: PluginSubcommand,
}

#[derive(Debug, Clone)]
pub enum PluginSubcommand {
    /// Install a plugin
    Install(PluginInstallArgs),
    /// Remove a plugin
    Remove(PluginRemoveArgs),
    /// List installed plugins
    List,
}

#[derive(Debug, Clone)]
pub struct PluginInstallArgs {
    /// Plugin name with optional version (e.g. xplorer@1.3.0).
    pub name: String,
}

#[derive(Debug, Clone)]
pub struct PluginRemoveArgs {
    /// Plugin name to remove.
    pub name: String,
}

#[derive(Debug, Clone)]
pub struct DoctorArgs {
    /// Output as JSON.
    pub json: bool,
}

#[derive(Debug, Clone)]
pub struct VersionArgs {
    /// Output as JSON.
    pub json: bool,
}

} // verus!
