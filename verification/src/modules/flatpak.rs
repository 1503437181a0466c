//! Containerised applications: builds the commands that list and kill them,
//! and reads the listing.

use vstd::prelude::*;
use crate::invocation::{Invocation, InvocationV};
use crate::text::{split, split_chars};

verus! {

/// Whether the listing names the application: some line after the header
/// line equals `app`.
pub open spec fn lists_running(app: Seq<char>, ps_output: Seq<char>) -> bool {
    let lines = split_chars(ps_output, '\n');
    exists|i: int| 1 <= i < lines.len() && lines[i] == app
}

/// The containerised-application runtime.
pub struct Flatpak {}

impl Flatpak {
    /// The invocation that lists running applications, one per line after a
    /// header line: `flatpak ps --columns=application`.
    pub fn ps_invocation() -> (r: Invocation)
        ensures
            r@ == (InvocationV { program: "flatpak"@, args: seq!["ps"@, "--columns=application"@] }),
    {
        let mut args: Vec<String> = Vec::new();
        args.push("ps".to_owned());
        args.push("--columns=application".to_owned());
        proof {
            assert(args.deep_view() =~= seq!["ps"@, "--columns=application"@]);
        }
        Invocation { program: "flatpak".to_owned(), args }
    }

    /// Whether the listing [`Flatpak::ps_invocation`] printed names the
    /// application.
    pub fn is_running(app: &str, ps_output: &str) -> (r: bool)
        ensures
            r == lists_running(app@, ps_output@),
    {
        let app_line: String = app.to_owned();
        let lines = split(ps_output, '\n');
        let ghost lines_v = split_chars(ps_output@, '\n');
        let mut i: usize = 1;
        let mut found = false;
        while i < lines.len()
            invariant
                1 <= i <= lines@.len(),
                lines.deep_view() == lines_v,
                app_line@ == app@,
                found == exists|j: int| 1 <= j < i && lines_v[j] == app@,
            decreases lines@.len() - i,
        {
            if lines[i] == app_line {
                assert(lines_v[i as int] == app@);
                found = true;
            }
            i += 1;
        }
        found
    }

    /// The invocation that stops a running application: `flatpak kill <app>`.
    pub fn kill(app: &str) -> (r: Invocation)
        ensures
            r@ == (InvocationV { program: "flatpak"@, args: seq!["kill"@, app@] }),
    {
        let mut args: Vec<String> = Vec::new();
        args.push("kill".to_owned());
        args.push(app.to_owned());
        proof {
            assert(args.deep_view() =~= seq!["kill"@, app@]);
        }
        Invocation { program: "flatpak".to_owned(), args }
    }
}

} // verus!
