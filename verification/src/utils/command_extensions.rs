//! Invocations of the small system commands the tool leans on: process
//! lookup and teardown, and launching through the window manager.

use vstd::prelude::*;
use crate::invocation::{Invocation, InvocationV};

verus! {

/// The invocation that asks the window manager to launch a program:
/// `hyprctl dispatch -- exec <program>`.
pub fn dispatch(program: &str) -> (r: Invocation)
    ensures
        r@ == (InvocationV {
            program: "hyprctl"@,
            args: seq!["dispatch"@, "--"@, "exec"@, program@],
        }),
{
    let mut args: Vec<String> = Vec::new();
    args.push("dispatch".to_owned());
    args.push("--".to_owned());
    args.push("exec".to_owned());
    args.push(program.to_owned());
    proof {
        assert(args.deep_view() =~= seq!["dispatch"@, "--"@, "exec"@, program@]);
    }
    Invocation { program: "hyprctl".to_owned(), args }
}

/// The invocation `killall <process>`.
pub fn killall(process: &str) -> (r: Invocation)
    ensures
        r@ == (InvocationV { program: "killall"@, args: seq![process@] }),
{
    let mut args: Vec<String> = Vec::new();
    args.push(process.to_owned());
    proof {
        assert(args.deep_view() =~= seq![process@]);
    }
    Invocation { program: "killall".to_owned(), args }
}

/// The invocation `pgrep <process>`: its exit status reports whether a
/// process with that name runs.
pub fn pgrep(process: &str) -> (r: Invocation)
    ensures
        r@ == (InvocationV { program: "pgrep"@, args: seq![process@] }),
{
    let mut args: Vec<String> = Vec::new();
    args.push(process.to_owned());
    proof {
        assert(args.deep_view() =~= seq![process@]);
    }
    Invocation { program: "pgrep".to_owned(), args }
}

} // verus!
