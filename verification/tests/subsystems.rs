use emanager::acpi::Acpi;
use emanager::args::Command;
use emanager::battery::{BatteryState, ChargeStatus};
use emanager::brightness::{Brightness, BrightnessOp, BrightnessState};
use emanager::error::Error;
use emanager::manager::{Dispatch, Manager};
use emanager::notify::Urgency;
use emanager::system::{SessionStep, System, SystemOp};
use emanager::utils::utf8_to_u32;
use emanager::volume::{Volume, VolumeOp, VolumeState};

#[test]
fn volume_reads_mixer_output() {
    assert_eq!(Volume::get("Volume: 0.40\n", true), Ok(40));
    assert_eq!(Volume::get("Volume: 1.00\n", true), Ok(100));
    assert_eq!(Volume::get("Volume: 0.05\n", true), Ok(5));
    // a sink that is not working reads as zero
    assert_eq!(Volume::get("whatever", false), Ok(0));
    // mangled output is the tool's failure
    assert_eq!(Volume::get("Volume:", true), Err(Error::ExternalTool));
    assert_eq!(Volume::get("Volume: loud\n", true), Err(Error::ExternalTool));
    // the MUTED marker
    assert!(Volume::muted("Volume: 0.40 [MUTED]\n"));
    assert!(!Volume::muted("Volume: 0.40\n"));
    // an empty stderr means the sink answered
    assert!(Volume::working(&Vec::new()));
    assert!(!Volume::working(&b"no sink".to_vec()));
}

#[test]
fn mute_suppression() {
    // muted: up, down and set issue no mixer command at all
    for op in [
        VolumeOp::Up { percent: 5 },
        VolumeOp::Down { percent: 5 },
        VolumeOp::SetTo { percent: 50 },
    ] {
        let plan = Volume::handle(op, true);
        assert!(plan.command.is_none());
        assert_eq!(plan.refresh_delay_ms, 0);
    }
    // the refresh still rebuilds the muted/working fields, and keeps the
    // level that was already there
    let s = VolumeState::new(42, true, true);
    assert_eq!(s.value, 42);
    assert!(s.muted);
    assert!(s.working);
    // unmuted, the same operations do reach the mixer
    assert!(Volume::handle(VolumeOp::SetTo { percent: 50 }, false)
        .command
        .is_some());
    // mute itself always reaches the mixer
    assert!(Volume::handle(VolumeOp::Mute, true).command.is_some());
}

#[test]
fn volume_commands() {
    let c = Volume::set(false, 70).expect("a mixer command");
    assert_eq!(c.program, "wpctl");
    assert_eq!(c.args, vec!["set-volume", "@DEFAULT_AUDIO_SINK@", "70%", "-l", "1"]);
    let c = Volume::up(false, 5).expect("a mixer command");
    assert_eq!(c.args, vec!["set-volume", "@DEFAULT_AUDIO_SINK@", "5%+", "-l", "1"]);
    let c = Volume::down(false, 5).expect("a mixer command");
    assert_eq!(c.args, vec!["set-volume", "@DEFAULT_AUDIO_SINK@", "5%-"]);
    let c = Volume::mute();
    assert_eq!(c.args, vec!["set-mute", "@DEFAULT_AUDIO_SINK@", "toggle"]);
}

#[test]
fn brightness_scenario() {
    // out of range is rejected before any dispatch
    assert_eq!(Command::parse("brightness set 150"), Err(Error::Parse));
    // in range: the effector is invoked with exactly 70
    let cmd = Command::parse("brightness set 70").expect("a valid command");
    let manager = Manager::new();
    match manager.handle(cmd, false) {
        Dispatch::Brightness(plan) => {
            let c = plan.command.expect("a backlight command");
            assert_eq!(c.program, "brightnessctl");
            assert_eq!(c.args, vec!["set", "70%"]);
            assert_eq!(plan.refresh_delay_ms, 0);
        }
        _ => panic!("routed to the wrong subsystem"),
    }
    // the refresh reads back what the hardware actually set, say 68,
    // persists that, and says so in exactly one notification
    let state = BrightnessState::new(68);
    assert_eq!(state.log(), "{\"value\":68,\"icon\":\"\u{e3ca} \"}");
    let note = state.notify();
    assert_eq!(note.summary, "Brightness");
    assert_eq!(note.body, "Set to 68%");
    assert_eq!(note.value, Some(68));
}

#[test]
fn brightness_percent_arithmetic() {
    assert_eq!(Brightness::get(b"750\n".to_vec(), b"1500\n".to_vec()), Ok(50));
    // rounding: a third of the scale reads as 33 of 100
    assert_eq!(Brightness::get(b"500\n".to_vec(), b"1500\n".to_vec()), Ok(33));
    assert_eq!(Brightness::get(b"1\n".to_vec(), b"3\n".to_vec()), Ok(33));
    assert_eq!(Brightness::get(b"2\n".to_vec(), b"3\n".to_vec()), Ok(67));
    // a zero maximum is the tool's failure
    assert_eq!(
        Brightness::get(b"1\n".to_vec(), b"0\n".to_vec()),
        Err(Error::ExternalTool)
    );
    assert_eq!(Brightness::max(b"1500\n".to_vec()), Ok(1500));
}

#[test]
fn brightness_commands() {
    let plan = Brightness::handle(BrightnessOp::Up { percent: 5 });
    let c = plan.command.expect("a backlight command");
    assert_eq!(c.args, vec!["set", "+5%"]);
    let plan = Brightness::handle(BrightnessOp::Down { percent: 5 });
    assert_eq!(plan.command.expect("a backlight command").args, vec!["set", "5%-"]);
    let plan = Brightness::handle(BrightnessOp::Refresh);
    assert!(plan.command.is_none());
    assert_eq!(plan.refresh_delay_ms, 500);
}

#[test]
fn boundary_steps_build() {
    // up at 100 and down at 0 still build their commands; the tool itself
    // settles at the boundary
    assert!(Volume::up(false, 100).is_some());
    assert!(Volume::down(false, 100).is_some());
    let c = Brightness::up(100);
    assert_eq!(c.args, vec!["set", "+100%"]);
    let c = Brightness::down(0);
    assert_eq!(c.args, vec!["set", "0%-"]);
}

#[test]
fn session_steps() {
    let steps = System::handle(SystemOp::Lock);
    assert_eq!(steps.len(), 2);
    match &steps[0] {
        SessionStep::Run(c) => {
            assert_eq!(c.program, "pkill");
            assert_eq!(c.args, vec!["swaylock"]);
        }
        _ => panic!("expected an external command"),
    }
    let steps = System::handle(SystemOp::Suspend);
    assert_eq!(steps.len(), 3);
    match &steps[0] {
        SessionStep::Login {
            method,
            interactive,
        } => {
            assert_eq!(method, "Suspend");
            assert!(*interactive);
        }
        _ => panic!("expected a login-manager call"),
    }
    let sysd = emanager::systemd::System::new();
    let cmds = sysd.handle(emanager::systemd::SystemOp::Poweroff);
    assert_eq!(cmds.len(), 1);
    assert_eq!(cmds[0].program, "systemctl");
    assert_eq!(cmds[0].args, vec!["poweroff"]);
}

#[test]
fn battery_alert_rule() {
    // low and discharging: one critical alert
    let s = BatteryState::new(5, ChargeStatus::Discharging);
    let note = s.notify().expect("an alert");
    assert_eq!(note.summary, "Battery very low");
    assert_eq!(note.body, "Connect charger");
    assert_eq!(note.urgency, Some(Urgency::Critical));
    // low but charging: no alert
    assert!(BatteryState::new(5, ChargeStatus::Charging).notify().is_none());
    // not low: no alert
    assert!(BatteryState::new(50, ChargeStatus::Discharging).notify().is_none());
    // the boundary itself alerts
    assert!(BatteryState::new(10, ChargeStatus::Full).notify().is_some());
    assert_eq!(s.status, "Discharging");
    assert_eq!(
        BatteryState::new(3, ChargeStatus::Unknown).status,
        "Not charging"
    );
}

#[test]
fn tool_output_numbers() {
    assert_eq!(utf8_to_u32(b"1500\n".to_vec()), Ok(1500));
    assert_eq!(utf8_to_u32(b"  42 \n".to_vec()), Ok(42));
    assert_eq!(utf8_to_u32(b"0\n".to_vec()), Ok(0));
    assert_eq!(utf8_to_u32(b"".to_vec()), Err(Error::ExternalTool));
    assert_eq!(utf8_to_u32(b"\n".to_vec()), Err(Error::ExternalTool));
    assert_eq!(utf8_to_u32(b"abc\n".to_vec()), Err(Error::ExternalTool));
    // the value must fit
    assert_eq!(utf8_to_u32(b"4294967295\n".to_vec()), Ok(4294967295));
    assert_eq!(
        utf8_to_u32(b"4294967296\n".to_vec()),
        Err(Error::ExternalTool)
    );
}

#[test]
fn acpi_event_mapping() {
    let split = |s: &str| -> Vec<String> { s.split(' ').map(String::from).collect() };
    assert_eq!(
        Acpi::handle(&split("button/lid LID0 close")),
        Some(Command::Power {
            operation: SystemOp::Suspend
        })
    );
    assert_eq!(Acpi::handle(&split("button/lid LID0 open")), None);
    assert_eq!(
        Acpi::handle(&split("video/brightnessup BRTUP 00000086")),
        Some(Command::Brightness {
            operation: BrightnessOp::Up { percent: 5 }
        })
    );
    assert_eq!(
        Acpi::handle(&split("button/mute MUTE 00000080")),
        Some(Command::Volume {
            operation: VolumeOp::Mute
        })
    );
    assert_eq!(
        Acpi::handle(&split("jack/headphone HEADPHONE plug")),
        Some(Command::Volume {
            operation: VolumeOp::Refresh
        })
    );
    assert_eq!(Acpi::handle(&split("processor/overheat")), None);
    assert!(!Acpi::debounce(99));
    assert!(Acpi::debounce(100));
}
