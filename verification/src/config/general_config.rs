//! General settings shared by several commands.

use vstd::prelude::*;
use crate::config::defaults::Defaults;
use crate::text::{join_path, joined_path};

verus! {

/// Spec-level mirror of [`GeneralConfig`].
pub ghost struct GeneralConfigV {
    pub resource_root_dir: Seq<char>,
    pub icons_dir: Option<Seq<char>>,
    pub notification_timeout_ms: int,
}

/// General settings: where the tool's resources live, where its icons live,
/// and how long its notifications stay up.
#[derive(Debug)]
pub struct GeneralConfig {
    pub resource_root_dir: String,
    pub icons_dir: Option<String>,
    pub notification_timeout_ms: i32,
}

impl View for GeneralConfig {
    type V = GeneralConfigV;

    open spec fn view(&self) -> GeneralConfigV {
        GeneralConfigV {
            resource_root_dir: self.resource_root_dir@,
            icons_dir: self.icons_dir.deep_view(),
            notification_timeout_ms: self.notification_timeout_ms as int,
        }
    }
}

impl Default for GeneralConfig {
    fn default() -> (r: Self)
        ensures
            r@ == (GeneralConfigV {
                resource_root_dir: "~/.desk-env/"@,
                icons_dir: None,
                notification_timeout_ms: 3000,
            }),
    {
        GeneralConfig {
            resource_root_dir: Defaults::resource_root_dir(),
            icons_dir: None,
            notification_timeout_ms: Defaults::notification_timeout_ms(),
        }
    }
}

/// Where the icons live: the configured directory, else the fixed location
/// under the resource root.
pub open spec fn icons_dir_of(g: GeneralConfigV) -> Seq<char> {
    match g.icons_dir {
        Some(path) => path,
        None => joined_path(g.resource_root_dir, "theme/wallust/icons"@),
    }
}

impl GeneralConfig {
    /// Where the icons live: the configured directory, else the fixed
    /// location under the resource root.
    pub fn icons_dir(&self) -> (r: String)
        ensures
            r@ == icons_dir_of(self@),
    {
        match &self.icons_dir {
            Some(path) => path.clone(),
            None => join_path(self.resource_root_dir.as_str(), "theme/wallust/icons"),
        }
    }
}

} // verus!
