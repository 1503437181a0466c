//! The brightness command: raising, lowering and toggling the screen or
//! keyboard backlight, with a notification of the new level.
//!
//! Everything here plans commands and notifications; the surrounding
//! program runs them and feeds the read-back level in.

use vstd::prelude::*;
use crate::config::Config;
use crate::config::general_config::icons_dir_of;
use crate::invocation::{Invocation, InvocationV};
use crate::modules::brightness::{BrightnessControl, BrightnessControlStep, BrightnessControlStepV, BrightnessControlV};
use crate::modules::notification::{Notification, NotificationV, notification_args};
use crate::text::{dec_int, i64_to_string, join_path, joined_path};

verus! {

/// The brightness command's subcommands.
pub enum BrightnessSubcommands {
    Increase,
    Decrease,
    ToggleScreen,
    KeyboardIncrease,
    KeyboardDecrease,
}

/// Command-line arguments of the brightness command.
pub struct BrightnessCommand {
    pub command: BrightnessSubcommands,
}

/// How the screen's brightness is to change.
#[derive(Debug, PartialEq, Eq)]
pub enum ScreenChange {
    Increase,
    Decrease,
    Toggle,
}

/// What a brightness subcommand decides: drive the screen backlight and
/// notify with the named icon, or move the keyboard backlight silently.
pub enum BrightnessAction {
    Screen { change: ScreenChange, icon: String },
    Keyboard { increase: bool },
}

/// Spec-level mirror of [`BrightnessCommandHandler`].
pub ghost struct BrightnessCommandHandlerV {
    pub step: int,
    pub notification_timeout: int,
    pub keyboard_device: Option<Seq<char>>,
    pub icons_dir: Seq<char>,
}

/// The brightness command's handler: the configured step, the notification
/// timeout, the keyboard backlight device, and where the icons live.
pub struct BrightnessCommandHandler {
    step: i8,
    notification_timeout: i32,
    keyboard_device: Option<String>,
    icons_dir: String,
}

impl View for BrightnessCommandHandler {
    type V = BrightnessCommandHandlerV;

    closed spec fn view(&self) -> BrightnessCommandHandlerV {
        BrightnessCommandHandlerV {
            step: self.step as int,
            notification_timeout: self.notification_timeout as int,
            keyboard_device: self.keyboard_device.deep_view(),
            icons_dir: self.icons_dir@,
        }
    }
}

impl BrightnessCommandHandler {
    /// A handler over the configuration: the brightness command's own
    /// notification timeout wins over the general one.
    pub fn create(config: &Config) -> (r: Self)
        ensures
            r@ == (BrightnessCommandHandlerV {
                step: config@.brightness.step,
                notification_timeout: match config@.brightness.notification_timeout_ms {
                    Some(t) => t,
                    None => config@.general.notification_timeout_ms,
                },
                keyboard_device: config@.brightness.keyboard_device,
                icons_dir: icons_dir_of(config@.general),
            }),
    {
        let notification_timeout = match config.brightness.notification_timeout_ms {
            Some(t) => t,
            None => config.general.notification_timeout_ms,
        };
        let keyboard_device = match &config.brightness.keyboard_device {
            Some(d) => Some(d.clone()),
            None => None,
        };
        BrightnessCommandHandler {
            step: config.brightness.step,
            notification_timeout,
            keyboard_device,
            icons_dir: config.general.icons_dir(),
        }
    }

    /// What each subcommand does: the screen subcommands drive the screen
    /// backlight and notify with their icon; the keyboard subcommands move
    /// the keyboard backlight and stay silent.
    pub fn handle(&self, cmd: &BrightnessCommand) -> (r: BrightnessAction)
        ensures
            match cmd.command {
                BrightnessSubcommands::Increase => r matches BrightnessAction::Screen {
                    change: ScreenChange::Increase,
                    icon,
                } && icon@ == "plus"@,
                BrightnessSubcommands::Decrease => r matches BrightnessAction::Screen {
                    change: ScreenChange::Decrease,
                    icon,
                } && icon@ == "minus"@,
                BrightnessSubcommands::ToggleScreen => r matches BrightnessAction::Screen {
                    change: ScreenChange::Toggle,
                    icon,
                } && icon@ == "empty"@,
                BrightnessSubcommands::KeyboardIncrease => r matches BrightnessAction::Keyboard {
                    increase: true,
                },
                BrightnessSubcommands::KeyboardDecrease => r matches BrightnessAction::Keyboard {
                    increase: false,
                },
            },
    {
        match &cmd.command {
            BrightnessSubcommands::Increase => BrightnessAction::Screen {
                change: ScreenChange::Increase,
                icon: "plus".to_owned(),
            },
            BrightnessSubcommands::Decrease => BrightnessAction::Screen {
                change: ScreenChange::Decrease,
                icon: "minus".to_owned(),
            },
            BrightnessSubcommands::ToggleScreen => BrightnessAction::Screen {
                change: ScreenChange::Toggle,
                icon: "empty".to_owned(),
            },
            BrightnessSubcommands::KeyboardIncrease => BrightnessAction::Keyboard {
                increase: true,
            },
            BrightnessSubcommands::KeyboardDecrease => BrightnessAction::Keyboard {
                increase: false,
            },
        }
    }

    /// The screen backlight's controller: the default device, moved by the
    /// configured percentage per change.
    pub fn screen_ctl(&self) -> (r: BrightnessControl)
        ensures
            r@ == (BrightnessControlV {
                device: None,
                step: BrightnessControlStepV::Percent { step: self@.step },
            }),
    {
        BrightnessControl::new(BrightnessControlStep::Percent(self.step), None)
    }

    /// The keyboard backlight's controller, moved by one unit per change;
    /// fails when no keyboard device is configured.
    pub fn keyboard_ctl(&self) -> (r: Result<BrightnessControl, String>)
        ensures
            match self@.keyboard_device {
                None => r matches Err(m) && m@ == "brightness.keyboard_device is not defined"@,
                Some(device) => r matches Ok(ctl) && ctl@ == (BrightnessControlV {
                    device: Some(device),
                    step: BrightnessControlStepV::Absolute { step: 1 },
                }),
            },
    {
        match &self.keyboard_device {
            None => Err("brightness.keyboard_device is not defined".to_owned()),
            Some(device) => Ok(
                BrightnessControl::new(BrightnessControlStep::Absolute(1), Some(device.clone())),
            ),
        }
    }

    /// The notification that reports the new level: transient, in the
    /// brightness sync group, with the named icon from the icon directory.
    pub fn notify(&self, brightness_value: i32, icon: &str) -> (r: Invocation)
        ensures
            r@ == (InvocationV {
                program: "notify-send"@,
                args: notification_args(
                    NotificationV {
                        title: "Brightness: "@ + dec_int(brightness_value as int) + "%"@,
                        body: None,
                        icon: Some(
                            joined_path(
                                self@.icons_dir,
                                "brightness-"@ + icon@ + ".svg"@,
                            ),
                        ),
                        timeout: self@.notification_timeout,
                        urgency: "low"@,
                        transient: true,
                        hints: seq!["string:x-canonical-private-synchronous:pde_brightness"@],
                    },
                ),
            }),
    {
        let mut title = "Brightness: ".to_owned();
        title.append(i64_to_string(brightness_value as i64).as_str());
        title.append("%");
        proof {
            assert(title@ =~= "Brightness: "@ + dec_int(brightness_value as int) + "%"@);
        }
        let mut icon_name = "brightness-".to_owned();
        icon_name.append(icon);
        icon_name.append(".svg");
        proof {
            assert(icon_name@ =~= "brightness-"@ + icon@ + ".svg"@);
        }
        let icon_path = join_path(self.icons_dir.as_str(), icon_name.as_str());
        let notification = Notification::message(title.as_str()).transient().timeout(
            self.notification_timeout,
        ).sync_group("pde_brightness").icon(icon_path.as_str());
        proof {
            reveal_strlit("string:x-canonical-private-synchronous:");
            reveal_strlit("pde_brightness");
            reveal_strlit("string:x-canonical-private-synchronous:pde_brightness");
            assert("string:x-canonical-private-synchronous:"@ + "pde_brightness"@
                =~= "string:x-canonical-private-synchronous:pde_brightness"@);
            assert(notification@.hints =~= seq![
                "string:x-canonical-private-synchronous:pde_brightness"@,
            ]);
        }
        notification.send()
    }
}

} // verus!
