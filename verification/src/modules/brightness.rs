//! The brightness controller: plans the `brightnessctl` commands that read,
//! change, save and restore a device's brightness.

use vstd::prelude::*;
use crate::invocation::{Invocation, InvocationV};
use crate::text::{dec_int, i64_to_string};

verus! {

/// Spec-level mirror of [`BrightnessControlStep`].
pub ghost enum BrightnessControlStepV {
    Percent { step: int },
    Absolute { step: int },
}

/// How one change moves the brightness: by a percentage of the maximum, or
/// by an absolute amount.
pub enum BrightnessControlStep {
    Percent(i8),
    Absolute(i8),
}

impl View for BrightnessControlStep {
    type V = BrightnessControlStepV;

    open spec fn view(&self) -> BrightnessControlStepV {
        match self {
            BrightnessControlStep::Percent(step) => BrightnessControlStepV::Percent {
                step: *step as int,
            },
            BrightnessControlStep::Absolute(step) => BrightnessControlStepV::Absolute {
                step: *step as int,
            },
        }
    }
}

/// Spec-level mirror of [`BrightnessControl`].
pub ghost struct BrightnessControlV {
    pub device: Option<Seq<char>>,
    pub step: BrightnessControlStepV,
}

/// One controllable backlight: the device it addresses (the default one
/// when none is named) and the step one change makes.
pub struct BrightnessControl {
    device: Option<String>,
    step: BrightnessControlStep,
}

impl View for BrightnessControl {
    type V = BrightnessControlV;

    closed spec fn view(&self) -> BrightnessControlV {
        BrightnessControlV { device: self.device.deep_view(), step: self.step@ }
    }
}

/// The full argument list of a `brightnessctl` call: `-d <device>` first
/// when a device is named, then the operation's own arguments.
pub open spec fn brightness_args(device: Option<Seq<char>>, args: Seq<Seq<char>>) -> Seq<
    Seq<char>,
> {
    match device {
        Some(d) => seq!["-d"@, d] + args,
        None => args,
    }
}

/// The value argument that raises the brightness by one step.
pub open spec fn increment_value(step: BrightnessControlStepV) -> Seq<char> {
    match step {
        BrightnessControlStepV::Percent { step } => "+"@ + dec_int(step) + "%"@,
        BrightnessControlStepV::Absolute { step } => dec_int(step) + "+"@,
    }
}

/// The value argument that lowers the brightness by one step.
pub open spec fn decrement_value(step: BrightnessControlStepV) -> Seq<char> {
    match step {
        BrightnessControlStepV::Percent { step } => dec_int(step) + "%-"@,
        BrightnessControlStepV::Absolute { step } => dec_int(step) + "-"@,
    }
}

impl BrightnessControl {
    /// A controller over the named device — the default one when `None` —
    /// moving by `step` per change.
    pub fn new(step: BrightnessControlStep, device: Option<String>) -> (r: Self)
        ensures
            r@ == (BrightnessControlV { device: device.deep_view(), step: step@ }),
    {
        BrightnessControl { step, device }
    }

    /// The `brightnessctl` invocation with the given operation arguments,
    /// addressed to this controller's device.
    fn invocation(&self, args: Vec<String>) -> (r: Invocation)
        ensures
            r@ == (InvocationV {
                program: "brightnessctl"@,
                args: brightness_args(self@.device, args.deep_view()),
            }),
    {
        let ghost args_v = args.deep_view();
        match &self.device {
            Some(device) => {
                let mut full: Vec<String> = Vec::new();
                full.push("-d".to_owned());
                full.push(device.clone());
                let mut tail = args;
                full.append(&mut tail);
                proof {
                    assert(full.deep_view() =~= seq!["-d"@, self@.device->0] + args_v);
                }
                Invocation { program: "brightnessctl".to_owned(), args: full }
            },
            None => Invocation { program: "brightnessctl".to_owned(), args },
        }
    }

    /// The invocation that reads the current brightness as a percentage:
    /// `brightnessctl g -P`. The surrounding program runs it and reads the
    /// level off its output.
    pub fn get(&self) -> (r: Invocation)
        ensures
            r@ == (InvocationV {
                program: "brightnessctl"@,
                args: brightness_args(self@.device, seq!["g"@, "-P"@]),
            }),
    {
        let mut args: Vec<String> = Vec::new();
        args.push("g".to_owned());
        args.push("-P".to_owned());
        proof {
            assert(args.deep_view() =~= seq!["g"@, "-P"@]);
        }
        self.invocation(args)
    }

    /// The invocation that raises the brightness by one step.
    pub fn increment(&self) -> (r: Invocation)
        ensures
            r@ == (InvocationV {
                program: "brightnessctl"@,
                args: brightness_args(
                    self@.device,
                    seq!["set"@, increment_value(self@.step)],
                ),
            }),
    {
        let value = match &self.step {
            BrightnessControlStep::Percent(pct) => {
                let mut v = "+".to_owned();
                proof {
                    reveal_strlit("+");
                    assert("+"@ =~= seq!['+']);
                }
                v.append(i64_to_string(*pct as i64).as_str());
                v.append("%");
                proof {
                    assert(v@ =~= "+"@ + dec_int(*pct as int) + "%"@);
                }
                v
            },
            BrightnessControlStep::Absolute(step) => {
                let mut v = i64_to_string(*step as i64);
                v.append("+");
                v
            },
        };
        self.set_brightness(value.as_str())
    }

    /// The invocation that lowers the brightness by one step.
    pub fn decrement(&self) -> (r: Invocation)
        ensures
            r@ == (InvocationV {
                program: "brightnessctl"@,
                args: brightness_args(
                    self@.device,
                    seq!["set"@, decrement_value(self@.step)],
                ),
            }),
    {
        let value = match &self.step {
            BrightnessControlStep::Percent(pct) => {
                let mut v = i64_to_string(*pct as i64);
                v.append("%-");
                v
            },
            BrightnessControlStep::Absolute(step) => {
                let mut v = i64_to_string(*step as i64);
                v.append("-");
                v
            },
        };
        self.set_brightness(value.as_str())
    }

    /// The invocation that sets the brightness to a `brightnessctl` value
    /// expression: `brightnessctl set <value>`.
    pub fn set_brightness(&self, value: &str) -> (r: Invocation)
        ensures
            r@ == (InvocationV {
                program: "brightnessctl"@,
                args: brightness_args(self@.device, seq!["set"@, value@]),
            }),
    {
        let mut args: Vec<String> = Vec::new();
        args.push("set".to_owned());
        args.push(value.to_owned());
        proof {
            assert(args.deep_view() =~= seq!["set"@, value@]);
        }
        self.invocation(args)
    }

    /// The invocations that toggle the backlight, decided on the level the
    /// read-back reported: restore the saved level when it is dark now, else
    /// save the level and turn it to zero.
    pub fn toggle(&self, current_level: i32) -> (r: Vec<Invocation>)
        ensures
            ({
                if current_level == 0 {
                    r.deep_view() == seq![
                        InvocationV {
                            program: "brightnessctl"@,
                            args: brightness_args(self@.device, seq!["--restore"@]),
                        },
                    ]
                } else {
                    r.deep_view() == seq![
                        InvocationV {
                            program: "brightnessctl"@,
                            args: brightness_args(self@.device, seq!["--save"@]),
                        },
                        InvocationV {
                            program: "brightnessctl"@,
                            args: brightness_args(self@.device, seq!["set"@, "0"@]),
                        },
                    ]
                }
            }),
    {
        let mut r: Vec<Invocation> = Vec::new();
        if current_level == 0 {
            let mut args: Vec<String> = Vec::new();
            args.push("--restore".to_owned());
            proof {
                assert(args.deep_view() =~= seq!["--restore"@]);
            }
            r.push(self.invocation(args));
            proof {
                assert(r.deep_view() =~= seq![
                    InvocationV {
                        program: "brightnessctl"@,
                        args: brightness_args(self@.device, seq!["--restore"@]),
                    },
                ]);
            }
        } else {
            let mut args: Vec<String> = Vec::new();
            args.push("--save".to_owned());
            proof {
                assert(args.deep_view() =~= seq!["--save"@]);
            }
            r.push(self.invocation(args));
            r.push(self.set_brightness("0"));
            proof {
                assert(r.deep_view() =~= seq![
                    InvocationV {
                        program: "brightnessctl"@,
                        args: brightness_args(self@.device, seq!["--save"@]),
                    },
                    InvocationV {
                        program: "brightnessctl"@,
                        args: brightness_args(self@.device, seq!["set"@, "0"@]),
                    },
                ]);
            }
        }
        r
    }
}

} // verus!
