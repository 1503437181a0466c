//! The volume command's surface.
//!
//! Its handler works on floating-point volume levels and lives with the
//! unverified surroundings; only the command shape is modelled here.

use vstd::prelude::*;

verus! {

/// The volume command's subcommands.
pub enum VolumeSubcommands {
    Increase,
    Decrease,
    ToggleMute,
}

/// Command-line arguments of the volume command.
pub struct VolumeCommand {
    pub command: VolumeSubcommands,
}

} // verus!
