use vstd::prelude::*;
use vstd::string::*;
use crate::args::Command;
use crate::args::cmd_valid;
use crate::brightness::{Brightness, BrightnessPlan};
use crate::system;
use crate::system::SessionStep;
use crate::systemd;
use crate::volume::{Volume, VolumePlan};

verus! {

/// The command router: it owns the subsystem handlers and turns one parsed
/// command into the plan its subsystem answers with. The socket listening,
/// the watcher threads and the running of plans stay outside.
pub struct Manager {
    pub systemd: systemd::System,
    pub brightness: Brightness,
    pub volume: Volume,
}

/// The well-known control endpoint.
pub fn socket_path() -> (r: String)
    ensures
        r@ == "/tmp/emanager.socket"@,
{
    "/tmp/emanager.socket".to_owned()
}

/// What dispatching one command amounts to.
pub enum Dispatch {
    /// A session operation's step sequence.
    Session(Vec<SessionStep>),
    /// A backlight operation's plan.
    Brightness(BrightnessPlan),
    /// A mixer operation's plan.
    Volume(VolumePlan),
    /// Commands with no subsystem behind them here: the daemon launch,
    /// which the process itself answers, and the layout change, which
    /// goes to the compositor directly.
    Nothing,
}

impl Manager {
    pub fn new() -> (r: Manager) {
        Manager { systemd: systemd::System::new(), brightness: Brightness, volume: Volume }
    }

    /// Routes one command to its subsystem. The mixer's mute flag comes in
    /// from the caller's fresh query, since the volume plan depends on it.
    pub fn handle(&self, command: Command, muted: bool) -> (r: Dispatch)
        requires
            cmd_valid(command),
        ensures
            command matches Command::Power { operation } ==> r matches Dispatch::Session(v)
                && v.deep_view() == system::steps_spec(operation),
            command matches Command::Brightness { operation } ==> r matches Dispatch::Brightness(p)
                && p.command.deep_view() == crate::brightness::command_spec(operation)
                && p.refresh_delay_ms == crate::brightness::refresh_delay_spec(operation),
            command matches Command::Volume { operation } ==> r matches Dispatch::Volume(p)
                && p.command.deep_view() == crate::volume::command_spec(operation, muted)
                && p.refresh_delay_ms == crate::volume::refresh_delay_spec(operation),
            (command is Start || command is Layout) ==> r is Nothing,
    {
        match command {
            Command::Power { operation } => Dispatch::Session(system::System::handle(operation)),
            Command::Brightness { operation } => Dispatch::Brightness(
                Brightness::handle(operation),
            ),
            Command::Volume { operation } => Dispatch::Volume(Volume::handle(operation, muted)),
            _ => Dispatch::Nothing,
        }
    }
}

} // verus!
