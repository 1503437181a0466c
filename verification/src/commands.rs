//! The tool's command surface: one handler per subcommand.

pub mod application;
pub mod brightness;
pub mod install;
pub mod monitor;
pub mod theme;
pub mod volume;
