//! Settings of the brightness command.

use vstd::prelude::*;
use crate::config::defaults::Defaults;

verus! {

/// Spec-level mirror of [`BrightnessConfig`].
pub ghost struct BrightnessConfigV {
    pub step: int,
    pub keyboard_device: Option<Seq<char>>,
    pub notification_timeout_ms: Option<int>,
}

/// Brightness settings: the step one change makes, the keyboard backlight
/// device if there is one, and an optional notification timeout of its own.
#[derive(Debug)]
pub struct BrightnessConfig {
    pub step: i8,
    pub keyboard_device: Option<String>,
    pub notification_timeout_ms: Option<i32>,
}

impl View for BrightnessConfig {
    type V = BrightnessConfigV;

    open spec fn view(&self) -> BrightnessConfigV {
        BrightnessConfigV {
            step: self.step as int,
            keyboard_device: self.keyboard_device.deep_view(),
            notification_timeout_ms: match self.notification_timeout_ms {
                Some(t) => Some(t as int),
                None => None,
            },
        }
    }
}

impl Default for BrightnessConfig {
    fn default() -> (r: Self)
        ensures
            r@ == (BrightnessConfigV {
                step: 2,
                keyboard_device: None,
                notification_timeout_ms: None,
            }),
    {
        BrightnessConfig {
            step: Defaults::control_step(),
            keyboard_device: None,
            notification_timeout_ms: None,
        }
    }
}

} // verus!
