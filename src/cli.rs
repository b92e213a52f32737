//! The command line of the updater, as values.
use vstd::prelude::*;

verus! {

/// Installs a firmware file without the graphical interface.
#[derive(Debug, Clone)]
pub struct InstallArgs {
    /// The device is already in upgrade mode: do not send the bootloader command.
    pub skip_bootloader: bool,
    /// Path of the firmware file.
    pub file: String,
}

#[derive(Debug, Clone)]
pub enum Commands {
    Install(InstallArgs),
    /// Updates the application itself.
    Update,
}

#[derive(Debug, Clone)]
pub struct Args {
    /// How many times `-v` was given.
    pub verbose: usize,
    pub debug: bool,
    pub command: Option<Commands>,
}

} // verus!
