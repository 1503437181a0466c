//! Built-in defaults for settings the configuration file may omit.

use vstd::prelude::*;

verus! {

/// The built-in default values.
pub struct Defaults {}

impl Defaults {
    /// The default resource root, as written — with its leading `~` still
    /// to be expanded against the home directory.
    pub fn resource_root_dir() -> (r: String)
        ensures
            r@ == "~/.desk-env/"@,
    {
        "~/.desk-env/".to_owned()
    }

    /// The audio sink volume changes are applied to.
    pub fn audio_sink() -> (r: String)
        ensures
            r@ == "@DEFAULT_AUDIO_SINK@"@,
    {
        "@DEFAULT_AUDIO_SINK@".to_owned()
    }

    /// How long a desktop notification stays up, in milliseconds.
    pub fn notification_timeout_ms() -> (r: i32)
        ensures
            r == 3000,
    {
        3000
    }

    /// The step, in percent, a single volume or brightness change makes.
    pub fn control_step() -> (r: i8)
        ensures
            r == 2,
    {
        2
    }
}

} // verus!
