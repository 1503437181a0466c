//! Settings of the theme command.

use vstd::prelude::*;

verus! {

/// Spec-level mirror of [`ThemeSelectorConfig`].
pub ghost struct ThemeSelectorConfigV {
    pub wallpapers_dirs: Seq<Seq<char>>,
    pub config_path: Option<Seq<char>>,
}

/// Settings of the wallpaper selector: where to look for wallpapers, and an
/// optional configuration for the menu program.
#[derive(Debug)]
pub struct ThemeSelectorConfig {
    pub wallpapers_dirs: Vec<String>,
    pub config_path: Option<String>,
}

impl View for ThemeSelectorConfig {
    type V = ThemeSelectorConfigV;

    open spec fn view(&self) -> ThemeSelectorConfigV {
        ThemeSelectorConfigV {
            wallpapers_dirs: self.wallpapers_dirs.deep_view(),
            config_path: self.config_path.deep_view(),
        }
    }
}

impl Default for ThemeSelectorConfig {
    fn default() -> (r: Self)
        ensures
            r@.wallpapers_dirs.len() == 0,
            r@.config_path is None,
    {
        let dirs: Vec<String> = Vec::new();
        proof {
            assert(dirs.deep_view() =~= Seq::<Seq<char>>::empty());
        }
        ThemeSelectorConfig { wallpapers_dirs: dirs, config_path: None }
    }
}

/// Spec-level mirror of [`ThemeConfig`].
pub ghost struct ThemeConfigV {
    pub wallpaper_store_path: Option<Seq<char>>,
    pub theme_variables_path: Option<Seq<char>>,
    pub on_init: Seq<Seq<char>>,
    pub selector: ThemeSelectorConfigV,
}

/// Theme settings: where the active wallpaper and the theme variables are
/// stored, the commands to run when a theme is (re)applied, and the
/// wallpaper selector's own settings.
#[derive(Debug)]
pub struct ThemeConfig {
    pub wallpaper_store_path: Option<String>,
    pub theme_variables_path: Option<String>,
    pub on_init: Vec<String>,
    pub selector: ThemeSelectorConfig,
}

impl View for ThemeConfig {
    type V = ThemeConfigV;

    open spec fn view(&self) -> ThemeConfigV {
        ThemeConfigV {
            wallpaper_store_path: self.wallpaper_store_path.deep_view(),
            theme_variables_path: self.theme_variables_path.deep_view(),
            on_init: self.on_init.deep_view(),
            selector: self.selector@,
        }
    }
}

impl Default for ThemeConfig {
    fn default() -> (r: Self)
        ensures
            r@.wallpaper_store_path is None,
            r@.theme_variables_path is None,
            r@.on_init.len() == 0,
            r@.selector.wallpapers_dirs.len() == 0,
            r@.selector.config_path is None,
    {
        let on_init: Vec<String> = Vec::new();
        proof {
            assert(on_init.deep_view() =~= Seq::<Seq<char>>::empty());
        }
        ThemeConfig {
            wallpaper_store_path: None,
            theme_variables_path: None,
            on_init,
            selector: ThemeSelectorConfig::default(),
        }
    }
}

} // verus!
