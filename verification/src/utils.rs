//! Small shared helpers.

pub mod command_extensions;
pub mod path_extensions;
