//! The theme command: selecting, setting and initialising the wallpaper and
//! the colour theme derived from it.
//!
//! The paths and command lines are computed here; listing directories,
//! driving the menu, converting images and spawning processes stay with the
//! surrounding program.

use vstd::prelude::*;
use crate::config::Config;
use crate::invocation::{Invocation, InvocationV};
use crate::text::{clone_strings, join_path, joined_path};
use crate::utils::command_extensions::{dispatch, killall};

verus! {

/// The theme command's subcommands.
pub enum ThemeSubcommands {
    SelectWallpaper,
    SetWallpaper { wallpaper: String, no_reload: bool },
    InitWallpaper,
}

/// Command-line arguments of the theme command.
pub struct ThemeCommand {
    pub command: ThemeSubcommands,
}

/// Where the active wallpaper is stored: the configured path, else the
/// fixed location under the resource root.
pub open spec fn wallpaper_target_path_of(cfg: crate::config::ConfigV) -> Seq<char> {
    match cfg.theme.wallpaper_store_path {
        Some(path) => path,
        None => joined_path(cfg.general.resource_root_dir, "theme/wallpaper.png"@),
    }
}

/// Where the theme variables are stored: the configured path, else the
/// fixed location under the resource root.
pub open spec fn theme_variables_path_of(cfg: crate::config::ConfigV) -> Seq<char> {
    match cfg.theme.theme_variables_path {
        Some(path) => path,
        None => joined_path(cfg.general.resource_root_dir, "theme/variables.toml"@),
    }
}

/// Where wallpapers are looked for: the configured directories, else the
/// fixed default.
pub open spec fn wallpapers_dirs_of(cfg: crate::config::ConfigV) -> Seq<Seq<char>> {
    if cfg.theme.selector.wallpapers_dirs.len() == 0 {
        seq!["~/wallpapers"@]
    } else {
        cfg.theme.selector.wallpapers_dirs
    }
}

/// Spec-level mirror of [`ThemeCommandHandler`].
pub ghost struct ThemeCommandHandlerV {
    pub wallpaper_target_path: Seq<char>,
    pub theme_variables_path: Seq<char>,
    pub wallpapers_dirs: Seq<Seq<char>>,
    pub theme_selector_config_path: Option<Seq<char>>,
    pub on_init_commands: Seq<Seq<char>>,
}

/// The theme command's handler: the resolved wallpaper and variable paths,
/// the wallpaper directories, the menu configuration, and the commands to
/// run when a theme is applied.
pub struct ThemeCommandHandler {
    pub wallpaper_target_path: String,
    pub theme_variables_path: String,
    pub wallpapers_dirs: Vec<String>,
    pub theme_selector_config_path: Option<String>,
    pub on_init_commands: Vec<String>,
}

impl View for ThemeCommandHandler {
    type V = ThemeCommandHandlerV;

    open spec fn view(&self) -> ThemeCommandHandlerV {
        ThemeCommandHandlerV {
            wallpaper_target_path: self.wallpaper_target_path@,
            theme_variables_path: self.theme_variables_path@,
            wallpapers_dirs: self.wallpapers_dirs.deep_view(),
            theme_selector_config_path: self.theme_selector_config_path.deep_view(),
            on_init_commands: self.on_init_commands.deep_view(),
        }
    }
}

impl ThemeCommandHandler {
    /// A handler over the configuration, with every path resolved.
    pub fn create(config: &Config) -> (r: Self)
        ensures
            r@ == (ThemeCommandHandlerV {
                wallpaper_target_path: wallpaper_target_path_of(config@),
                theme_variables_path: theme_variables_path_of(config@),
                wallpapers_dirs: wallpapers_dirs_of(config@),
                theme_selector_config_path: config@.theme.selector.config_path,
                on_init_commands: config@.theme.on_init,
            }),
    {
        ThemeCommandHandler {
            wallpaper_target_path: Self::resolve_wallpaper_target_path(config),
            theme_variables_path: Self::resolve_theme_variables_path(config),
            on_init_commands: clone_strings(&config.theme.on_init),
            wallpapers_dirs: Self::resolve_wallpapers_folder(config),
            theme_selector_config_path: match &config.theme.selector.config_path {
                Some(path) => Some(path.clone()),
                None => None,
            },
        }
    }

    fn resolve_wallpaper_target_path(config: &Config) -> (r: String)
        ensures
            r@ == wallpaper_target_path_of(config@),
    {
        match &config.theme.wallpaper_store_path {
            Some(path) => path.clone(),
            None => join_path(config.general.resource_root_dir.as_str(), "theme/wallpaper.png"),
        }
    }

    fn resolve_theme_variables_path(config: &Config) -> (r: String)
        ensures
            r@ == theme_variables_path_of(config@),
    {
        match &config.theme.theme_variables_path {
            Some(path) => path.clone(),
            None => join_path(config.general.resource_root_dir.as_str(), "theme/variables.toml"),
        }
    }

    fn resolve_wallpapers_folder(config: &Config) -> (r: Vec<String>)
        ensures
            r.deep_view() == wallpapers_dirs_of(config@),
    {
        if config.theme.selector.wallpapers_dirs.len() == 0 {
            let mut dirs: Vec<String> = Vec::new();
            dirs.push("~/wallpapers".to_owned());
            proof {
                assert(dirs.deep_view() =~= seq!["~/wallpapers"@]);
            }
            dirs
        } else {
            clone_strings(&config.theme.selector.wallpapers_dirs)
        }
    }

    /// One line of the wallpaper menu: the file name to show, and — behind
    /// a NUL separator — the icon attribute carrying the image path.
    pub fn menu_line(filename: &str, path: &str) -> (r: String)
        ensures
            r@ == filename@ + "\u{0}icon\u{1f}"@ + path@,
    {
        let mut line = filename.to_owned();
        line.append("\u{0}icon\u{1f}");
        line.append(path);
        line
    }

    /// The on-init command lines with every theme variable substituted: the
    /// variables are applied one at a time, in list order, each replacing
    /// its `{{ name }}` references across the whole command.
    pub fn render_on_init_commands(&self, variables: &Vec<(String, String)>) -> (r: Vec<String>)
        ensures
            r.deep_view() == self@.on_init_commands.map_values(
                |c: Seq<char>| crate::text::apply_vars(c, variables.deep_view()),
            ),
    {
        let ghost cmds_v = self@.on_init_commands;
        let ghost vars_v = variables.deep_view();
        let mut r: Vec<String> = Vec::new();
        let mut i: usize = 0;
        while i < self.on_init_commands.len()
            invariant
                i <= self.on_init_commands@.len(),
                cmds_v == self.on_init_commands.deep_view(),
                vars_v == variables.deep_view(),
                r@.len() == i,
                forall|t: int| #![auto]
                    0 <= t < i ==> r@[t]@ == crate::text::apply_vars(cmds_v[t], vars_v),
            decreases self.on_init_commands@.len() - i,
        {
            let mut current = self.on_init_commands[i].clone();
            proof {
                assert(vars_v.skip(0) =~= vars_v);
                assert(current@ == cmds_v[i as int]);
            }
            let mut j: usize = 0;
            while j < variables.len()
                invariant
                    j <= variables@.len(),
                    vars_v == variables.deep_view(),
                    crate::text::apply_vars(current@, vars_v.skip(j as int))
                        == crate::text::apply_vars(cmds_v[i as int], vars_v),
                    i < self.on_init_commands@.len(),
                    cmds_v == self.on_init_commands.deep_view(),
                decreases variables@.len() - j,
            {
                proof {
                    assert(vars_v.skip(j as int)[0] == vars_v[j as int]);
                    assert(vars_v.skip(j as int).drop_first() =~= vars_v.skip(j + 1));
                }
                current = crate::text::replace_var_exec(
                    current.as_str(),
                    variables[j].0.as_str(),
                    variables[j].1.as_str(),
                );
                j += 1;
            }
            proof {
                assert(vars_v.skip(vars_v.len() as int) =~= Seq::<(Seq<char>, Seq<char>)>::empty());
            }
            r.push(current);
            i += 1;
        }
        proof {
            assert(r.deep_view() =~= cmds_v.map_values(
                |c: Seq<char>| crate::text::apply_vars(c, vars_v),
            ));
        }
        r
    }

    /// The invocations that restart a companion program after a theme
    /// change: kill it first when it runs, then ask the window manager to
    /// launch it again.
    pub fn reload(program: &str, running: bool) -> (r: Vec<Invocation>)
        ensures
            ({
                let launch = InvocationV {
                    program: "hyprctl"@,
                    args: seq!["dispatch"@, "--"@, "exec"@, program@],
                };
                if running {
                    r.deep_view() == seq![
                        InvocationV { program: "killall"@, args: seq![program@] },
                        launch,
                    ]
                } else {
                    r.deep_view() == seq![launch]
                }
            }),
    {
        let mut r: Vec<Invocation> = Vec::new();
        if running {
            r.push(killall(program));
        }
        r.push(dispatch(program));
        proof {
            if running {
                assert(r.deep_view() =~= seq![
                    InvocationV { program: "killall"@, args: seq![program@] },
                    InvocationV {
                        program: "hyprctl"@,
                        args: seq!["dispatch"@, "--"@, "exec"@, program@],
                    },
                ]);
            } else {
                assert(r.deep_view() =~= seq![
                    InvocationV {
                        program: "hyprctl"@,
                        args: seq!["dispatch"@, "--"@, "exec"@, program@],
                    },
                ]);
            }
        }
        r
    }
}

} // verus!
