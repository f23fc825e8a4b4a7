//! The command-line argument shapes of the flashing commands. Argument
//! parsing itself lives with the callers; the engine only carries the
//! values.

use vstd::prelude::*;

verus! {

/// Arguments shared by the commands that boot a DA: the DA archive path
/// and an optional preloader path.
pub struct DaArgs {
    pub da_file: String,
    pub preloader_file: Option<String>,
}

/// Erase a partition.
pub struct EraseArgs {
    pub da: DaArgs,
    pub partition: String,
}

/// Format a partition.
pub struct FormatArgs {
    pub da: DaArgs,
    pub partition: String,
}

/// Flash a file to a partition through the hooked `CMD:SET-RSC` handler.
pub struct RscFlashArgs {
    pub da: DaArgs,
    pub partition: String,
    pub file: String,
}

/// The XFlash-specific subcommands.
pub enum XFlashSubcommand {
    RscFlash(RscFlashArgs),
}

/// The XFlash command group.
pub struct XFlashArgs {
    pub command: XFlashSubcommand,
}

impl EraseArgs {
    /// The DA archive path of the command.
    pub fn da(&self) -> (r: &String)
        ensures
            r == &self.da.da_file,
    {
        &self.da.da_file
    }

    /// The preloader path of the command, when one was given.
    pub fn pl(&self) -> (r: &Option<String>)
        ensures
            r == &self.da.preloader_file,
    {
        &self.da.preloader_file
    }
}

impl FormatArgs {
    /// The DA archive path of the command.
    pub fn da(&self) -> (r: &String)
        ensures
            r == &self.da.da_file,
    {
        &self.da.da_file
    }

    /// The preloader path of the command, when one was given.
    pub fn pl(&self) -> (r: &Option<String>)
        ensures
            r == &self.da.preloader_file,
    {
        &self.da.preloader_file
    }
}

impl XFlashArgs {
    /// The DA archive path of the selected subcommand.
    pub fn da(&self) -> (r: &String)
        ensures
            self.command matches XFlashSubcommand::RscFlash(c) ==> r == &c.da.da_file,
    {
        match &self.command {
            XFlashSubcommand::RscFlash(c) => &c.da.da_file,
        }
    }

    /// The preloader path of the selected subcommand, when one was given.
    pub fn pl(&self) -> (r: &Option<String>)
        ensures
            self.command matches XFlashSubcommand::RscFlash(c) ==> r == &c.da.preloader_file,
    {
        match &self.command {
            XFlashSubcommand::RscFlash(c) => &c.da.preloader_file,
        }
    }
}

} // verus!
