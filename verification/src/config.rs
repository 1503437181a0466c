//! Configuration model of the tool.
//!
//! The volume command's settings carry floating-point values and stay with
//! the unverified surroundings, as does everything that reads files or the
//! environment; the model here holds what the verified logic works on.

pub mod brightness_config;
pub mod defaults;
pub mod general_config;
pub mod parse_utils;
pub mod profiles;
pub mod theme_config;

use vstd::prelude::*;
use brightness_config::{BrightnessConfig, BrightnessConfigV};
use general_config::{GeneralConfig, GeneralConfigV};
use theme_config::{ThemeConfig, ThemeConfigV};
use crate::text::{join_path, joined_path};

verus! {

/// Spec-level mirror of [`Config`].
pub ghost struct ConfigV {
    pub general: GeneralConfigV,
    pub brightness: BrightnessConfigV,
    pub theme: ThemeConfigV,
}

/// The tool's configuration document.
#[derive(Debug)]
pub struct Config {
    pub general: GeneralConfig,
    pub brightness: BrightnessConfig,
    pub theme: ThemeConfig,
}

impl View for Config {
    type V = ConfigV;

    open spec fn view(&self) -> ConfigV {
        ConfigV { general: self.general@, brightness: self.brightness@, theme: self.theme@ }
    }
}

impl Default for Config {
    fn default() -> (r: Self)
        ensures
            r@.general == (GeneralConfigV {
                resource_root_dir: "~/.desk-env/"@,
                icons_dir: None,
                notification_timeout_ms: 3000,
            }),
            r@.brightness == (BrightnessConfigV {
                step: 2,
                keyboard_device: None,
                notification_timeout_ms: None,
            }),
            r@.theme.wallpaper_store_path is None,
            r@.theme.theme_variables_path is None,
            r@.theme.on_init.len() == 0,
            r@.theme.selector.wallpapers_dirs.len() == 0,
            r@.theme.selector.config_path is None,
    {
        Config {
            general: GeneralConfig::default(),
            brightness: BrightnessConfig::default(),
            theme: ThemeConfig::default(),
        }
    }
}

impl Config {
    /// Where the configuration document is looked for: the explicit path
    /// when one was given, else the environment-provided one, else the fixed
    /// default under the home directory.
    pub fn resolve_path(input_path: Option<String>, env_path: Option<String>, home: &str) -> (r:
        String)
        ensures
            r@ == match input_path {
                Some(p) => p@,
                None => match env_path {
                    Some(p) => p@,
                    None => joined_path(home@, ".config/pde/config.toml"@),
                },
            },
    {
        match input_path {
            Some(p) => p,
            None => match env_path {
                Some(p) => p,
                None => join_path(home, ".config/pde/config.toml"),
            },
        }
    }
}

} // verus!
