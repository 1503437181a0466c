//! The wallpaper daemon: builds the commands that restart it with a new
//! image.

use vstd::prelude::*;
use crate::invocation::{Invocation, InvocationV};
use crate::utils::command_extensions::{dispatch, killall};

verus! {

/// The wallpaper daemon controller.
pub struct Wallpaper {}

impl Wallpaper {
    /// The invocations that show a wallpaper: kill a running daemon first
    /// (when one runs), then ask the window manager to launch a new one on
    /// the image.
    pub fn set(wallpaper_path: &str, daemon_running: bool) -> (r: Vec<Invocation>)
        ensures
            ({
                let launch = InvocationV {
                    program: "hyprctl"@,
                    args: seq![
                        "dispatch"@,
                        "--"@,
                        "exec"@,
                        "swaybg"@,
                        "-i"@,
                        wallpaper_path@,
                    ],
                };
                if daemon_running {
                    r.deep_view() == seq![
                        InvocationV { program: "killall"@, args: seq!["swaybg"@] },
                        launch,
                    ]
                } else {
                    r.deep_view() == seq![launch]
                }
            }),
    {
        let mut r: Vec<Invocation> = Vec::new();
        if daemon_running {
            r.push(killall("swaybg"));
        }
        let mut launch = dispatch("swaybg");
        proof {
            assert(launch@.args =~= seq!["dispatch"@, "--"@, "exec"@, "swaybg"@]);
        }
        launch.args.push("-i".to_owned());
        proof {
            assert(launch.args.deep_view() =~= seq![
                "dispatch"@,
                "--"@,
                "exec"@,
                "swaybg"@,
                "-i"@,
            ]);
        }
        launch.args.push(wallpaper_path.to_owned());
        proof {
            assert(launch.args.deep_view() =~= seq![
                "dispatch"@,
                "--"@,
                "exec"@,
                "swaybg"@,
                "-i"@,
                wallpaper_path@,
            ]);
        }
        r.push(launch);
        proof {
            if daemon_running {
                assert(r.deep_view() =~= seq![
                    InvocationV { program: "killall"@, args: seq!["swaybg"@] },
                    InvocationV {
                        program: "hyprctl"@,
                        args: seq![
                            "dispatch"@,
                            "--"@,
                            "exec"@,
                            "swaybg"@,
                            "-i"@,
                            wallpaper_path@,
                        ],
                    },
                ]);
            } else {
                assert(r.deep_view() =~= seq![
                    InvocationV {
                        program: "hyprctl"@,
                        args: seq![
                            "dispatch"@,
                            "--"@,
                            "exec"@,
                            "swaybg"@,
                            "-i"@,
                            wallpaper_path@,
                        ],
                    },
                ]);
            }
        }
        r
    }
}

} // verus!
