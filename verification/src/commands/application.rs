//! The application command: toggling an application — launch it when it
//! does not run, hide or kill it when it does.
//!
//! The decisions are made here from plain values; the surrounding program
//! queries the window manager and the process table and performs the chosen
//! action.

use vstd::prelude::*;
use crate::text::{join_with, joined_with};

verus! {

/// The application command's subcommands.
pub enum ApplicationSubcommands {
    Toggle {
        app: String,
        flatpak: bool,
        special_workspace: Option<String>,
        window_rules: Vec<String>,
    },
}

/// Command-line arguments of the application command.
pub struct ApplicationCommand {
    pub command: ApplicationSubcommands,
}

/// What toggling decides to do.
#[derive(Debug, PartialEq, Eq)]
pub enum AppAction {
    /// Ask the window manager to launch this command line.
    Exec { command: String },
    /// Toggle the named special workspace.
    ToggleSpecialWorkspace { workspace: String },
    /// Stop the containerised application.
    KillFlatpak { app: String },
    /// Kill the application's processes.
    Killall { app: String },
}

/// The launch command line of a containerised application.
pub open spec fn flatpak_run_command(app: Seq<char>) -> Seq<char> {
    "flatpak run "@ + app
}

/// The window rules a launched application gets: the configured rules,
/// then — when a special workspace is named — the rule that opens it there.
pub open spec fn launch_rules(
    window_rules: Seq<Seq<char>>,
    special_workspace: Option<Seq<char>>,
) -> Seq<Seq<char>> {
    match special_workspace {
        Some(workspace) => window_rules.push("workspace special:"@ + workspace),
        None => window_rules,
    }
}

/// The launch command line of a system application: its rules, joined with
/// `; ` and bracketed, before the application name.
pub open spec fn sys_exec_command(app: Seq<char>, rules: Seq<Seq<char>>) -> Seq<char> {
    "["@ + joined_with(rules, "; "@) + "] "@ + app
}

/// The workspace name of a special workspace.
pub open spec fn special_workspace_name(workspace: Seq<char>) -> Seq<char> {
    "special:"@ + workspace
}

/// What toggling a containerised application does, given whether it runs:
/// launch it when it does not; else toggle its special workspace when one is
/// named, else stop it.
pub open spec fn flatpak_toggle_action(
    app: Seq<char>,
    special_workspace: Option<Seq<char>>,
    running: bool,
) -> AppActionV {
    if !running {
        AppActionV::Exec { command: flatpak_run_command(app) }
    } else {
        match special_workspace {
            Some(workspace) => AppActionV::ToggleSpecialWorkspace { workspace },
            None => AppActionV::KillFlatpak { app },
        }
    }
}

/// What toggling a system application does, given whether it runs: launch
/// it under its window rules when it does not; else toggle its special
/// workspace when one is named, else kill it.
pub open spec fn sys_toggle_action(
    app: Seq<char>,
    special_workspace: Option<Seq<char>>,
    window_rules: Seq<Seq<char>>,
    running: bool,
) -> AppActionV {
    if !running {
        AppActionV::Exec {
            command: sys_exec_command(app, launch_rules(window_rules, special_workspace)),
        }
    } else {
        match special_workspace {
            Some(workspace) => AppActionV::ToggleSpecialWorkspace { workspace },
            None => AppActionV::Killall { app },
        }
    }
}

/// What the window-manager client list alone decides about a running check.
#[derive(Debug, PartialEq, Eq)]
pub enum RunningCheck {
    /// The application runs.
    Running,
    /// The application does not run.
    NotRunning,
    /// The client list is inconclusive: consult the process table.
    CheckProcesses,
}

/// The application command's handler.
pub struct ApplicationCommandHandler {}

impl ApplicationCommandHandler {
    pub fn create() -> (r: Self) {
        Self {  }
    }

    /// Decides a toggle: a containerised application is handled by the
    /// container runtime, anything else through the window manager and the
    /// process table. The surrounding program supplies whether the
    /// application currently runs and performs the returned action.
    pub fn handle(self, cmd: &ApplicationCommand, running: bool) -> (r: AppAction)
        ensures
            match cmd.command {
                ApplicationSubcommands::Toggle { ref app, flatpak, ref special_workspace, ref window_rules } => {
                    r@ == if flatpak {
                        flatpak_toggle_action(app@, special_workspace.deep_view(), running)
                    } else {
                        sys_toggle_action(
                            app@,
                            special_workspace.deep_view(),
                            window_rules.deep_view(),
                            running,
                        )
                    }
                },
            },
    {
        match &cmd.command {
            ApplicationSubcommands::Toggle { app, flatpak, special_workspace, window_rules } => {
                if *flatpak {
                    Self::handle_flatpak_app(app.as_str(), special_workspace, running)
                } else {
                    Self::handle_sys_app(app.as_str(), special_workspace, window_rules, running)
                }
            },
        }
    }

    /// What toggling a containerised application does, given whether it
    /// runs: launch it when it does not; else toggle its special workspace
    /// when one is named, else stop it.
    pub fn handle_flatpak_app(
        app: &str,
        special_workspace: &Option<String>,
        running: bool,
    ) -> (r: AppAction)
        ensures
            r@ == flatpak_toggle_action(app@, special_workspace.deep_view(), running),
    {
        if !running {
            let command = "flatpak run ".to_owned().concat(app);
            return AppAction::Exec { command };
        }
        match special_workspace {
            Some(workspace) => AppAction::ToggleSpecialWorkspace { workspace: workspace.clone() },
            None => AppAction::KillFlatpak { app: app.to_owned() },
        }
    }

    /// What toggling a system application does, given whether it runs:
    /// launch it under its window rules when it does not; else toggle its
    /// special workspace when one is named, else kill it.
    pub fn handle_sys_app(
        app: &str,
        special_workspace: &Option<String>,
        window_rules: &Vec<String>,
        running: bool,
    ) -> (r: AppAction)
        ensures
            r@ == sys_toggle_action(
                app@,
                special_workspace.deep_view(),
                window_rules.deep_view(),
                running,
            ),
    {
        if !running {
            let mut rules = crate::text::clone_strings(window_rules);
            if let Some(workspace) = special_workspace {
                rules.push("workspace special:".to_owned().concat(workspace.as_str()));
                proof {
                    assert(rules.deep_view() =~= window_rules.deep_view().push(
                        "workspace special:"@ + special_workspace.deep_view()->0,
                    ));
                }
            } else {
                proof {
                    assert(rules.deep_view() =~= window_rules.deep_view());
                }
            }
            let mut command = "[".to_owned();
            command.append(join_with(&rules, "; ").as_str());
            command.append("] ");
            command.append(app);
            return AppAction::Exec { command };
        }
        match special_workspace {
            Some(workspace) => AppAction::ToggleSpecialWorkspace { workspace: workspace.clone() },
            None => AppAction::Killall { app: app.to_owned() },
        }
    }

    /// What the window-manager client list says about whether the
    /// application runs. Each client is its initial class and its workspace
    /// name. With a special workspace named, only clients count; without
    /// one, an empty match asks for the process table to be consulted.
    pub fn is_sys_app_running(
        app: &str,
        special_workspace: &Option<String>,
        clients: &Vec<(String, String)>,
    ) -> (r: RunningCheck)
        ensures
            ({
                let cs = clients.deep_view();
                match special_workspace.deep_view() {
                    Some(workspace) => r == if exists|i: int|
                        0 <= i < cs.len() && cs[i].0 == app@ && cs[i].1 == special_workspace_name(
                            workspace,
                        ) {
                        RunningCheck::Running
                    } else {
                        RunningCheck::NotRunning
                    },
                    None => r == if exists|i: int| 0 <= i < cs.len() && cs[i].0 == app@ {
                        RunningCheck::Running
                    } else {
                        RunningCheck::CheckProcesses
                    },
                }
            }),
    {
        let ghost cs = clients.deep_view();
        let app_s: String = app.to_owned();
        match special_workspace {
            Some(workspace) => {
                let target = "special:".to_owned().concat(workspace.as_str());
                let ghost target_v = special_workspace_name(special_workspace.deep_view()->0);
                let mut i: usize = 0;
                let mut found = false;
                while i < clients.len()
                    invariant
                        i <= clients@.len(),
                        cs == clients.deep_view(),
                        app_s@ == app@,
                        target@ == target_v,
                        found == exists|j: int|
                            0 <= j < i && cs[j].0 == app@ && cs[j].1 == target_v,
                    decreases clients@.len() - i,
                {
                    if clients[i].0 == app_s && clients[i].1 == target {
                        assert(cs[i as int].0 == app@ && cs[i as int].1 == target_v);
                        found = true;
                    }
                    i += 1;
                }
                if found {
                    RunningCheck::Running
                } else {
                    RunningCheck::NotRunning
                }
            },
            None => {
                let mut i: usize = 0;
                let mut found = false;
                while i < clients.len()
                    invariant
                        i <= clients@.len(),
                        cs == clients.deep_view(),
                        app_s@ == app@,
                        found == exists|j: int| 0 <= j < i && cs[j].0 == app@,
                    decreases clients@.len() - i,
                {
                    if clients[i].0 == app_s {
                        assert(cs[i as int].0 == app@);
                        found = true;
                    }
                    i += 1;
                }
                if found {
                    RunningCheck::Running
                } else {
                    RunningCheck::CheckProcesses
                }
            },
        }
    }
}

/// Spec-level mirror of [`AppAction`].
pub ghost enum AppActionV {
    Exec { command: Seq<char> },
    ToggleSpecialWorkspace { workspace: Seq<char> },
    KillFlatpak { app: Seq<char> },
    Killall { app: Seq<char> },
}

impl View for AppAction {
    type V = AppActionV;

    open spec fn view(&self) -> AppActionV {
        match self {
            AppAction::Exec { command } => AppActionV::Exec { command: command@ },
            AppAction::ToggleSpecialWorkspace { workspace } => {
                AppActionV::ToggleSpecialWorkspace { workspace: workspace@ }
            },
            AppAction::KillFlatpak { app } => AppActionV::KillFlatpak { app: app@ },
            AppAction::Killall { app } => AppActionV::Killall { app: app@ },
        }
    }
}

} // verus!
