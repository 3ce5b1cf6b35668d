//! The command line, as values.

use vstd::prelude::*;

verus! {

/// The parsed command line.
#[derive(Debug)]
pub struct RoxyCliArgs {
    pub command: RoxySubcommand,
}

/// The operations the manager offers.
#[derive(Debug)]
pub enum RoxySubcommand {
    Status,
    Install(InstallCommand),
    Uninstall,
    Update,
    Start,
    Restart,
    Stop,
    Autostart(AutostartCommand),
    Config,
    Logs,
}

/// The arguments of `install`.
#[derive(Debug)]
pub struct InstallCommand {
    /// Program and data path; the default root where absent.
    pub path: Option<String>,
}

/// The arguments of `autostart`.
#[derive(Debug)]
pub struct AutostartCommand {
    pub command: AutostartSubcommand,
}

/// What `autostart` is asked to do.
#[derive(Clone, Copy, Debug, PartialEq, Eq, Structural)]
pub enum AutostartSubcommand {
    Enable,
    Disable,
    Status,
}

} // verus!
