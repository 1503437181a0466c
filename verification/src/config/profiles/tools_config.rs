//! Tool definitions: a named command template plus a batching policy.

use vstd::prelude::*;

verus! {

/// Spec-level mirror of [`ToolConfig`].
pub ghost struct ToolConfigV {
    pub cmd: Seq<char>,
    pub batching: bool,
}

/// A package-management tool: the command template it is invoked through,
/// and whether all packages are passed to a single invocation (`batching`)
/// or one invocation is issued per package.
#[derive(Debug, PartialEq, Eq)]
pub struct ToolConfig {
    pub cmd: String,
    pub batching: bool,
}

impl View for ToolConfig {
    type V = ToolConfigV;

    open spec fn view(&self) -> ToolConfigV {
        ToolConfigV { cmd: self.cmd@, batching: self.batching }
    }
}

impl DeepView for ToolConfig {
    type V = ToolConfigV;

    open spec fn deep_view(&self) -> ToolConfigV {
        self@
    }
}

impl Clone for ToolConfig {
    fn clone(&self) -> (r: Self)
        ensures
            r == *self,
    {
        ToolConfig { cmd: self.cmd.clone(), batching: self.batching }
    }
}

} // verus!
