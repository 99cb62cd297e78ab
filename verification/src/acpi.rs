use vstd::prelude::*;
use vstd::string::*;
use crate::args::Command;
use crate::brightness::BrightnessOp;
use crate::system::SystemOp;
use crate::text;
use crate::volume::VolumeOp;

verus! {

/// The hardware-button watcher's pure core: which command one hardware
/// event asks for, and the spacing policy that drops event bursts.
#[derive(Clone)]
pub struct Acpi;

/// Events arriving closer together than this many microseconds are
/// dropped: a hard minimum spacing, not a coalescing window.
pub open spec fn min_gap_micros() -> int {
    100
}

/// The command one hardware event maps to, from its space-separated
/// fields: lid close and sleep button suspend, the brightness and volume
/// keys step by the default five percent, the mute key toggles, and a
/// headphone jack change refreshes the mixer state. Everything else is
/// nobody's business.
pub open spec fn handle_spec(ws: Seq<Seq<char>>) -> Option<Command> {
    if ws.len() == 0 {
        None
    } else if ws[0] == "button/lid"@ {
        if ws.len() >= 3 && ws[2] == "close"@ {
            Some(Command::Power { operation: SystemOp::Suspend })
        } else {
            None
        }
    } else if ws[0] == "button/sleep"@ {
        Some(Command::Power { operation: SystemOp::Suspend })
    } else if ws[0] == "video/brightnessup"@ {
        Some(Command::Brightness { operation: BrightnessOp::Up { percent: 5 } })
    } else if ws[0] == "video/brightnessdown"@ {
        Some(Command::Brightness { operation: BrightnessOp::Down { percent: 5 } })
    } else if ws[0] == "button/volumeup"@ {
        Some(Command::Volume { operation: VolumeOp::Up { percent: 5 } })
    } else if ws[0] == "button/volumedown"@ {
        Some(Command::Volume { operation: VolumeOp::Down { percent: 5 } })
    } else if ws[0] == "button/mute"@ {
        Some(Command::Volume { operation: VolumeOp::Mute })
    } else if ws[0] == "jack/headphone"@ {
        Some(Command::Volume { operation: VolumeOp::Refresh })
    } else {
        None
    }
}

impl Acpi {
    /// Maps one hardware event, already split into its fields, to the
    /// command it asks for. Every command this hands out is valid.
    pub fn handle(event: &Vec<String>) -> (r: Option<Command>)
        ensures
            r == handle_spec(event.deep_view()),
            r matches Some(c) ==> crate::args::cmd_valid(c),
    {
        if event.len() == 0 {
            return None;
        }
        proof {
            assert(event.deep_view()[0] == event@[0]@);
        }
        let w0 = &event[0];
        if text::str_eq(w0.as_str(), "button/lid") {
            if event.len() >= 3 {
                proof {
                    assert(event.deep_view()[2] == event@[2]@);
                }
                if text::str_eq(event[2].as_str(), "close") {
                    return Some(Command::Power { operation: SystemOp::Suspend });
                }
            }
            None
        } else if text::str_eq(w0.as_str(), "button/sleep") {
            Some(Command::Power { operation: SystemOp::Suspend })
        } else if text::str_eq(w0.as_str(), "video/brightnessup") {
            Some(Command::Brightness { operation: BrightnessOp::Up { percent: 5 } })
        } else if text::str_eq(w0.as_str(), "video/brightnessdown") {
            Some(Command::Brightness { operation: BrightnessOp::Down { percent: 5 } })
        } else if text::str_eq(w0.as_str(), "button/volumeup") {
            Some(Command::Volume { operation: VolumeOp::Up { percent: 5 } })
        } else if text::str_eq(w0.as_str(), "button/volumedown") {
            Some(Command::Volume { operation: VolumeOp::Down { percent: 5 } })
        } else if text::str_eq(w0.as_str(), "button/mute") {
            Some(Command::Volume { operation: VolumeOp::Mute })
        } else if text::str_eq(w0.as_str(), "jack/headphone") {
            Some(Command::Volume { operation: VolumeOp::Refresh })
        } else {
            None
        }
    }

    /// The debounce rule: an event is handled only when at least the
    /// minimum gap has passed since the last one that was handled.
    pub fn debounce(elapsed_micros: u64) -> (r: bool)
        ensures
            r == (elapsed_micros >= min_gap_micros()),
    {
        elapsed_micros >= 100
    }
}

} // verus!
