use emanager::args::Command;
use emanager::brightness::BrightnessOp;
use emanager::error::Error;
use emanager::hypr::Layout;
use emanager::system::{InhibitOp, SystemOp};
use emanager::volume::VolumeOp;

#[test]
fn round_trip_volume_set() {
    let c = Command::Volume {
        operation: VolumeOp::SetTo { percent: 42 },
    };
    assert_eq!(Command::parse(c.serialize().as_str()), Ok(c));
}

#[test]
fn round_trip_every_shape() {
    let commands = [
        Command::Start,
        Command::Power {
            operation: SystemOp::Poweroff,
        },
        Command::Power {
            operation: SystemOp::Suspend,
        },
        Command::Power {
            operation: SystemOp::Lock,
        },
        Command::Power {
            operation: SystemOp::Inhibit {
                operation: InhibitOp::On,
            },
        },
        Command::Power {
            operation: SystemOp::Inhibit {
                operation: InhibitOp::Off,
            },
        },
        Command::Brightness {
            operation: BrightnessOp::Up { percent: 5 },
        },
        Command::Brightness {
            operation: BrightnessOp::Down { percent: 100 },
        },
        Command::Brightness {
            operation: BrightnessOp::SetTo { percent: 0 },
        },
        Command::Brightness {
            operation: BrightnessOp::Refresh,
        },
        Command::Volume {
            operation: VolumeOp::Up { percent: 17 },
        },
        Command::Volume {
            operation: VolumeOp::Down { percent: 5 },
        },
        Command::Volume {
            operation: VolumeOp::Mute,
        },
        Command::Volume {
            operation: VolumeOp::Refresh,
        },
        Command::Layout { layout: Layout::Fr },
        Command::Layout { layout: Layout::Us },
    ];
    for c in commands {
        assert_eq!(Command::parse(c.serialize().as_str()), Ok(c));
    }
}

#[test]
fn serialized_texts() {
    assert_eq!(Command::Start.serialize(), "start");
    assert_eq!(
        Command::Volume {
            operation: VolumeOp::Up { percent: 5 }
        }
        .serialize(),
        "volume up 5"
    );
    assert_eq!(
        Command::Brightness {
            operation: BrightnessOp::SetTo { percent: 70 }
        }
        .serialize(),
        "brightness set 70"
    );
    assert_eq!(
        Command::Power {
            operation: SystemOp::Inhibit {
                operation: InhibitOp::On
            }
        }
        .serialize(),
        "power inhibit on"
    );
    assert_eq!(Command::Layout { layout: Layout::Us }.serialize(), "layout us");
}

#[test]
fn parse_accepts_defaults_and_args() {
    assert_eq!(
        Command::parse("volume up"),
        Ok(Command::Volume {
            operation: VolumeOp::Up { percent: 5 }
        })
    );
    assert_eq!(
        Command::parse("volume set 42"),
        Ok(Command::Volume {
            operation: VolumeOp::SetTo { percent: 42 }
        })
    );
    assert_eq!(
        Command::parse("volume set 100"),
        Ok(Command::Volume {
            operation: VolumeOp::SetTo { percent: 100 }
        })
    );
    assert_eq!(
        Command::parse("power lock"),
        Ok(Command::Power {
            operation: SystemOp::Lock
        })
    );
    assert_eq!(
        Command::parse("brightness down"),
        Ok(Command::Brightness {
            operation: BrightnessOp::Down { percent: 5 }
        })
    );
    assert_eq!(Command::parse("start"), Ok(Command::Start));
    assert_eq!(
        Command::parse("layout fr"),
        Ok(Command::Layout { layout: Layout::Fr })
    );
}

#[test]
fn parse_rejects_malformed() {
    // unknown domain
    assert_eq!(Command::parse("bogus up"), Err(Error::Parse));
    // no operation at all
    assert_eq!(Command::parse("volume"), Err(Error::Parse));
    assert_eq!(Command::parse("power"), Err(Error::Parse));
    // unknown operation
    assert_eq!(Command::parse("volume sideways"), Err(Error::Parse));
    // missing required argument
    assert_eq!(Command::parse("volume set"), Err(Error::Parse));
    assert_eq!(Command::parse("brightness set"), Err(Error::Parse));
    // stray argument
    assert_eq!(Command::parse("start now"), Err(Error::Parse));
    assert_eq!(Command::parse("volume mute 3"), Err(Error::Parse));
    // empty and whitespace-mangled lines
    assert_eq!(Command::parse(""), Err(Error::Parse));
    assert_eq!(Command::parse(" volume up"), Err(Error::Parse));
    assert_eq!(Command::parse("volume  up"), Err(Error::Parse));
}

#[test]
fn parse_rejects_out_of_range_percent() {
    assert_eq!(Command::parse("volume set 101"), Err(Error::Parse));
    assert_eq!(Command::parse("volume set 150"), Err(Error::Parse));
    assert_eq!(Command::parse("brightness set 150"), Err(Error::Parse));
    assert_eq!(Command::parse("volume up 999999999999"), Err(Error::Parse));
    // not a number at all
    assert_eq!(Command::parse("volume set ten"), Err(Error::Parse));
    assert_eq!(Command::parse("volume set -5"), Err(Error::Parse));
}

#[test]
fn error_messages() {
    assert_eq!(Error::Parse.message(), "Unknown command");
    assert_eq!(Error::AlreadyRunning.message(), "Manager is already running");
    assert_eq!(Error::NotRunning.message(), "Manager is not running");
    assert_eq!(Error::NotFound.message(), "State not found");
}
