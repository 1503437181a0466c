//! The monitor command: toggling a monitor on and off.

use vstd::prelude::*;

verus! {

/// The monitor command's subcommands.
pub enum MonitorSubcommands {
    Toggle { monitor: String },
}

/// Command-line arguments of the monitor command.
pub struct MonitorCommand {
    pub command: MonitorSubcommands,
}

/// The monitor command's handler.
pub struct MonitorCommandHandler {}

impl MonitorCommandHandler {
    pub fn create() -> (r: Self) {
        Self {  }
    }

    /// Monitor toggling is not implemented yet; handling always reports so.
    pub fn handle(self, cmd: &MonitorCommand) -> (r: Result<(), String>)
        ensures
            r matches Err(m) && m@ == "work in progress"@,
    {
        match &cmd.command {
            MonitorSubcommands::Toggle { monitor: _ } => Err("work in progress".to_owned()),
        }
    }
}

} // verus!
