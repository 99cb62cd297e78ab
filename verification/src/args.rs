use vstd::prelude::*;
use vstd::string::*;
use crate::brightness;
use crate::brightness::BrightnessOp;
use crate::error::Error;
use crate::hypr;
use crate::hypr::Layout;
use crate::system;
use crate::system::SystemOp;
use crate::text;
use crate::text::split_ch;
use crate::volume;
use crate::volume::VolumeOp;

verus! {

/// The whole of one invocation: a single command.
pub struct Args {
    pub command: Command,
}

/// One command, as the control socket and the command line carry it: a
/// domain and its operation, on one line of text.
#[derive(Clone, Copy, PartialEq, Eq, Structural, Debug)]
pub enum Command {
    /// Become the long-running manager daemon.
    Start,
    /// Session and power management.
    Power { operation: SystemOp },
    /// Backlight control.
    Brightness { operation: BrightnessOp },
    /// Audio mixer control.
    Volume { operation: VolumeOp },
    /// Keyboard layout change.
    Layout { layout: Layout },
}

/// Every percent the command carries is within [0, 100].
pub open spec fn cmd_valid(c: Command) -> bool {
    match c {
        Command::Brightness { operation } => brightness::op_valid(operation),
        Command::Volume { operation } => volume::op_valid(operation),
        _ => true,
    }
}

/// The command's one-line wire text: the domain word, then the operation.
pub open spec fn serialize_spec(c: Command) -> Seq<char> {
    match c {
        Command::Start => "start"@,
        Command::Power { operation } => "power"@ + seq![' '] + system::op_text(operation),
        Command::Brightness { operation } => "brightness"@ + seq![' '] + brightness::op_text(
            operation,
        ),
        Command::Volume { operation } => "volume"@ + seq![' '] + volume::op_text(operation),
        Command::Layout { layout } => "layout"@ + seq![' '] + hypr::layout_word(layout),
    }
}

/// What one line of text means: split into words on single spaces, the
/// first word names the domain, the rest the operation. Anything else is
/// no command at all.
pub open spec fn parse_spec(s: Seq<char>) -> Option<Command> {
    let ws = split_ch(s, ' ');
    if ws.len() == 1 && ws[0] == "start"@ {
        Some(Command::Start)
    } else if ws.len() >= 2 && ws[0] == "power"@ {
        match system::parse_op_spec(ws.skip(1)) {
            Some(op) => Some(Command::Power { operation: op }),
            None => None,
        }
    } else if ws.len() >= 2 && ws[0] == "brightness"@ {
        match brightness::parse_op_spec(ws.skip(1)) {
            Some(op) => Some(Command::Brightness { operation: op }),
            None => None,
        }
    } else if ws.len() >= 2 && ws[0] == "volume"@ {
        match volume::parse_op_spec(ws.skip(1)) {
            Some(op) => Some(Command::Volume { operation: op }),
            None => None,
        }
    } else if ws.len() == 2 && ws[0] == "layout"@ {
        match hypr::parse_layout_spec(ws[1]) {
            Some(l) => Some(Command::Layout { layout: l }),
            None => None,
        }
    } else {
        None
    }
}

impl Command {
    /// Reads one line of command text. A line that means no command is
    /// rejected as a parse failure, with nothing else done: malformed
    /// requests never reach a handler. Whatever parses is valid: every
    /// percent is within [0, 100], checked here at the parse boundary.
    pub fn parse(s: &str) -> (r: Result<Command, Error>)
        ensures
            r matches Ok(c) ==> parse_spec(s@) == Some(c) && cmd_valid(c),
            r is Err ==> parse_spec(s@) is None && r == Err::<Command, Error>(Error::Parse),
    {
        let ws = text::split_str(s, ' ');
        proof {
            text::lemma_split_len(s@, ' ');
            assert(ws.deep_view().len() == ws@.len());
            assert(ws.deep_view()[0] == ws@[0]@);
            volume::lemma_parse_op_valid(ws.deep_view().skip(1));
            brightness::lemma_parse_op_valid(ws.deep_view().skip(1));
        }
        let w0 = &ws[0];
        if ws.len() == 1 && text::str_eq(w0.as_str(), "start") {
            Ok(Command::Start)
        } else if ws.len() >= 2 && text::str_eq(w0.as_str(), "power") {
            match system::parse_op(&ws, 1) {
                Some(op) => Ok(Command::Power { operation: op }),
                None => Err(Error::Parse),
            }
        } else if ws.len() >= 2 && text::str_eq(w0.as_str(), "brightness") {
            match brightness::parse_op(&ws, 1) {
                Some(op) => Ok(Command::Brightness { operation: op }),
                None => Err(Error::Parse),
            }
        } else if ws.len() >= 2 && text::str_eq(w0.as_str(), "volume") {
            match volume::parse_op(&ws, 1) {
                Some(op) => Ok(Command::Volume { operation: op }),
                None => Err(Error::Parse),
            }
        } else if ws.len() == 2 && text::str_eq(w0.as_str(), "layout") {
            proof {
                assert(ws.deep_view()[1] == ws@[1]@);
            }
            match Layout::parse(ws[1].as_str()) {
                Some(l) => Ok(Command::Layout { layout: l }),
                None => Err(Error::Parse),
            }
        } else {
            Err(Error::Parse)
        }
    }

    /// Writes the command's one-line wire text.
    pub fn serialize(&self) -> (r: String)
        ensures
            r@ == serialize_spec(*self),
    {
        proof {
            reveal_strlit("power ");
            reveal_strlit("brightness ");
            reveal_strlit("volume ");
            reveal_strlit("layout ");
            reveal_strlit("power");
            reveal_strlit("brightness");
            reveal_strlit("volume");
            reveal_strlit("layout");
        }
        match self {
            Command::Start => "start".to_owned(),
            Command::Power { operation } => {
                let mut s: String = "power ".to_owned();
                s.append(system::serialize_op(*operation).as_str());
                proof {
                    assert("power "@ =~= "power"@ + seq![' ']);
                }
                s
            },
            Command::Brightness { operation } => {
                let mut s: String = "brightness ".to_owned();
                s.append(brightness::serialize_op(*operation).as_str());
                proof {
                    assert("brightness "@ =~= "brightness"@ + seq![' ']);
                }
                s
            },
            Command::Volume { operation } => {
                let mut s: String = "volume ".to_owned();
                s.append(volume::serialize_op(*operation).as_str());
                proof {
                    assert("volume "@ =~= "volume"@ + seq![' ']);
                }
                s
            },
            Command::Layout { layout } => {
                let mut s: String = "layout ".to_owned();
                s.append(layout.text().as_str());
                proof {
                    assert("layout "@ =~= "layout"@ + seq![' ']);
                }
                s
            },
        }
    }
}

/// The parse boundary holds the percent range: no text whatsoever parses
/// to a command carrying a percent above one hundred, so no handler ever
/// sees one.
pub proof fn lemma_parse_valid(s: Seq<char>)
    ensures
        parse_spec(s) matches Some(c) ==> cmd_valid(c),
{
    let ws = split_ch(s, ' ');
    brightness::lemma_parse_op_valid(ws.skip(1));
    volume::lemma_parse_op_valid(ws.skip(1));
}

/// Round trip: every valid command, written to its wire text and read
/// back, returns as itself.
pub proof fn lemma_roundtrip(c: Command)
    requires
        cmd_valid(c),
    ensures
        parse_spec(serialize_spec(c)) == Some(c),
{
    reveal_strlit("start");
    reveal_strlit("power");
    reveal_strlit("brightness");
    reveal_strlit("volume");
    reveal_strlit("layout");
    let s = serialize_spec(c);
    let ws = split_ch(s, ' ');
    match c {
        Command::Start => {
            text::lemma_split_single("start"@, ' ');
        },
        Command::Power { operation } => {
            system::lemma_op_words_ok(operation);
            system::lemma_split_op_text(operation);
            text::lemma_split_step("power"@, ' ', system::op_text(operation));
            assert(ws =~~= seq!["power"@] + system::op_words(operation));
            assert(ws.skip(1) =~~= system::op_words(operation));
            system::lemma_op_roundtrip(operation);
        },
        Command::Brightness { operation } => {
            brightness::lemma_op_words_ok(operation);
            brightness::lemma_split_op_text(operation);
            text::lemma_split_step("brightness"@, ' ', brightness::op_text(operation));
            assert(ws =~~= seq!["brightness"@] + brightness::op_words(operation));
            assert(ws.skip(1) =~~= brightness::op_words(operation));
            text::lemma_seq_ne_len("brightness"@, "power"@);
            brightness::lemma_op_roundtrip(operation);
        },
        Command::Volume { operation } => {
            volume::lemma_op_words_ok(operation);
            volume::lemma_split_op_text(operation);
            text::lemma_split_step("volume"@, ' ', volume::op_text(operation));
            assert(ws =~~= seq!["volume"@] + volume::op_words(operation));
            assert(ws.skip(1) =~~= volume::op_words(operation));
            text::lemma_seq_ne_len("volume"@, "power"@);
            text::lemma_seq_ne_len("volume"@, "brightness"@);
            volume::lemma_op_roundtrip(operation);
        },
        Command::Layout { layout } => {
            hypr::lemma_layout_word_ok(layout);
            text::lemma_split_step("layout"@, ' ', hypr::layout_word(layout));
            text::lemma_split_single(hypr::layout_word(layout), ' ');
            assert(ws =~~= seq!["layout"@, hypr::layout_word(layout)]);
            text::lemma_seq_ne_len("layout"@, "power"@);
            text::lemma_seq_ne_len("layout"@, "brightness"@);
            text::lemma_seq_ne_at("layout"@, "volume"@, 0);
            hypr::lemma_layout_roundtrip(layout);
        },
    }
}

} // verus!
