//! The layered installation configuration: tools, modules, profiles.

pub mod module_config;
pub mod profiles_config;
pub mod tools_config;
