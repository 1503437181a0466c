//! The palette generator: builds the command that derives a colour theme
//! from a wallpaper.

use vstd::prelude::*;
use crate::invocation::{Invocation, InvocationV};

verus! {

/// The palette generator.
pub struct Wallust {}

impl Wallust {
    /// The invocation that generates a palette from the wallpaper:
    /// `wallust run -s <wallpaper>`.
    pub fn run(wallpaper_path: &str) -> (r: Invocation)
        ensures
            r@ == (InvocationV {
                program: "wallust"@,
                args: seq!["run"@, "-s"@, wallpaper_path@],
            }),
    {
        let mut args: Vec<String> = Vec::new();
        args.push("run".to_owned());
        args.push("-s".to_owned());
        args.push(wallpaper_path.to_owned());
        proof {
            assert(args.deep_view() =~= seq!["run"@, "-s"@, wallpaper_path@]);
        }
        Invocation { program: "wallust".to_owned(), args }
    }
}

} // verus!
