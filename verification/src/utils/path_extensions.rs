//! Path resolution offered as an extension method on string paths.

use vstd::prelude::*;
use crate::config::parse_utils::{tilde_resolved, ParseUtils};

verus! {

/// Types that can resolve themselves as configuration paths.
pub trait PathExtensions {
    /// The path's characters.
    spec fn path_chars(&self) -> Seq<char>;

    /// The path with a leading `~` component expanded to the home directory.
    fn pde_resolve(&self, home: &str) -> (r: String)
        ensures
            r@ == tilde_resolved(self.path_chars(), home@),
    ;
}

impl PathExtensions for String {
    open spec fn path_chars(&self) -> Seq<char> {
        self@
    }

    fn pde_resolve(&self, home: &str) -> (r: String)
        ensures
            r@ == tilde_resolved(self@, home@),
    {
        ParseUtils::parse_path(self.as_str(), home)
    }
}

} // verus!
