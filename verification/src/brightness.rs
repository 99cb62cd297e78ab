use vstd::prelude::*;
use vstd::string::*;
use crate::error::Error;
use crate::notify::NotifyRequest;
use crate::plan::{ExtCommand, ExtCommandV};
use crate::text;
use crate::text::{dec_digits, parse_pct_spec};
use crate::utils;
use crate::json;

verus! {

/// The backlight subsystem: it decides which `brightnessctl` invocations to
/// make and reads the tool's answers back.
pub struct Brightness;

/// One backlight operation, as carried by a `brightness ...` command.
#[derive(Clone, Copy, PartialEq, Eq, Structural, Debug)]
pub enum BrightnessOp {
    /// Increase by a percentage.
    Up { percent: u32 },
    /// Decrease by a percentage.
    Down { percent: u32 },
    /// Set to a percentage.
    SetTo { percent: u32 },
    /// Re-read the backlight state, notify and persist.
    Refresh,
}

// ---------------------------------------------------------------------------
// Operation text codec
// ---------------------------------------------------------------------------

/// Every percent a backlight operation carries is within [0, 100]; the
/// parser establishes this before a handler runs.
pub open spec fn op_valid(op: BrightnessOp) -> bool {
    match op {
        BrightnessOp::Up { percent } => percent <= 100,
        BrightnessOp::Down { percent } => percent <= 100,
        BrightnessOp::SetTo { percent } => percent <= 100,
        BrightnessOp::Refresh => true,
    }
}

/// The words of an operation on the wire.
pub open spec fn op_words(op: BrightnessOp) -> Seq<Seq<char>> {
    match op {
        BrightnessOp::Up { percent } => seq!["up"@, dec_digits(percent as int)],
        BrightnessOp::Down { percent } => seq!["down"@, dec_digits(percent as int)],
        BrightnessOp::SetTo { percent } => seq!["set"@, dec_digits(percent as int)],
        BrightnessOp::Refresh => seq!["refresh"@],
    }
}

/// What a word list after the `brightness` domain word means. `up` and
/// `down` without an argument use the default step of five percent.
pub open spec fn parse_op_spec(ws: Seq<Seq<char>>) -> Option<BrightnessOp> {
    if ws.len() == 1 {
        if ws[0] == "up"@ {
            Some(BrightnessOp::Up { percent: 5 })
        } else if ws[0] == "down"@ {
            Some(BrightnessOp::Down { percent: 5 })
        } else if ws[0] == "refresh"@ {
            Some(BrightnessOp::Refresh)
        } else {
            None
        }
    } else if ws.len() == 2 {
        match parse_pct_spec(ws[1]) {
            Some(p) => if ws[0] == "up"@ {
                Some(BrightnessOp::Up { percent: p })
            } else if ws[0] == "down"@ {
                Some(BrightnessOp::Down { percent: p })
            } else if ws[0] == "set"@ {
                Some(BrightnessOp::SetTo { percent: p })
            } else {
                None
            },
            None => None,
        }
    } else {
        None
    }
}

/// Reads the operation words that follow the domain word, `ws[at..]`.
pub fn parse_op(ws: &Vec<String>, at: usize) -> (r: Option<BrightnessOp>)
    requires
        at <= ws@.len(),
    ensures
        r == parse_op_spec(ws.deep_view().skip(at as int)),
{
    let ghost tail = ws.deep_view().skip(at as int);
    let k = ws.len() - at;
    if k == 1 {
        proof {
            assert(tail[0] == ws@[at as int]@);
        }
        let w = &ws[at];
        if text::str_eq(w.as_str(), "up") {
            Some(BrightnessOp::Up { percent: 5 })
        } else if text::str_eq(w.as_str(), "down") {
            Some(BrightnessOp::Down { percent: 5 })
        } else if text::str_eq(w.as_str(), "refresh") {
            Some(BrightnessOp::Refresh)
        } else {
            None
        }
    } else if k == 2 {
        proof {
            assert(tail[0] == ws@[at as int]@);
            assert(tail[1] == ws@[at as int + 1]@);
        }
        let w = &ws[at];
        match text::parse_pct(ws[at + 1].as_str()) {
            Some(p) => if text::str_eq(w.as_str(), "up") {
                Some(BrightnessOp::Up { percent: p })
            } else if text::str_eq(w.as_str(), "down") {
                Some(BrightnessOp::Down { percent: p })
            } else if text::str_eq(w.as_str(), "set") {
                Some(BrightnessOp::SetTo { percent: p })
            } else {
                None
            },
            None => None,
        }
    } else {
        None
    }
}

/// The operation's wire text: its words joined with single spaces.
pub open spec fn op_text(op: BrightnessOp) -> Seq<char> {
    match op {
        BrightnessOp::Up { percent } => "up"@ + seq![' '] + dec_digits(percent as int),
        BrightnessOp::Down { percent } => "down"@ + seq![' '] + dec_digits(percent as int),
        BrightnessOp::SetTo { percent } => "set"@ + seq![' '] + dec_digits(percent as int),
        BrightnessOp::Refresh => "refresh"@,
    }
}

/// Writes the operation's wire text.
pub fn serialize_op(op: BrightnessOp) -> (r: String)
    ensures
        r@ == op_text(op),
{
    proof {
        reveal_strlit("up");
        reveal_strlit("down");
        reveal_strlit("set");
        reveal_strlit("up ");
        reveal_strlit("down ");
        reveal_strlit("set ");
    }
    match op {
        BrightnessOp::Up { percent } => {
            let mut s: String = "up ".to_owned();
            s.append(text::fmt_u32(percent).as_str());
            proof {
                assert("up "@ =~= "up"@ + seq![' ']);
            }
            s
        },
        BrightnessOp::Down { percent } => {
            let mut s: String = "down ".to_owned();
            s.append(text::fmt_u32(percent).as_str());
            proof {
                assert("down "@ =~= "down"@ + seq![' ']);
            }
            s
        },
        BrightnessOp::SetTo { percent } => {
            let mut s: String = "set ".to_owned();
            s.append(text::fmt_u32(percent).as_str());
            proof {
                assert("set "@ =~= "set"@ + seq![' ']);
            }
            s
        },
        BrightnessOp::Refresh => "refresh".to_owned(),
    }
}

/// Reading back the words of a valid operation returns the operation.
pub proof fn lemma_op_roundtrip(op: BrightnessOp)
    requires
        op_valid(op),
    ensures
        parse_op_spec(op_words(op)) == Some(op),
{
    reveal_strlit("up");
    reveal_strlit("down");
    reveal_strlit("set");
    reveal_strlit("refresh");
    match op {
        BrightnessOp::Up { percent } => {
            text::lemma_dec_digits_val(percent as int);
        },
        BrightnessOp::Down { percent } => {
            text::lemma_dec_digits_val(percent as int);
            text::lemma_seq_ne_len("down"@, "up"@);
        },
        BrightnessOp::SetTo { percent } => {
            text::lemma_dec_digits_val(percent as int);
            text::lemma_seq_ne_len("set"@, "up"@);
            text::lemma_seq_ne_len("set"@, "down"@);
        },
        BrightnessOp::Refresh => {
            text::lemma_seq_ne_len("refresh"@, "up"@);
            text::lemma_seq_ne_len("refresh"@, "down"@);
        },
    }
}

/// Whatever parses is valid: the parser never hands a handler a percent
/// above one hundred.
pub proof fn lemma_parse_op_valid(ws: Seq<Seq<char>>)
    ensures
        parse_op_spec(ws) matches Some(op) ==> op_valid(op),
{
    if ws.len() == 2 && parse_pct_spec(ws[1]) is Some {
        text::lemma_dec_val_nonneg(ws[1]);
    }
}

/// Every word of an operation is nonempty and free of spaces.
pub proof fn lemma_op_words_ok(op: BrightnessOp)
    ensures
        forall|i: int|
            0 <= i < op_words(op).len() ==> (#[trigger] op_words(op)[i]).len() > 0
                && text::sep_free(op_words(op)[i], ' '),
        op_words(op).len() >= 1,
{
    reveal_strlit("up");
    reveal_strlit("down");
    reveal_strlit("set");
    reveal_strlit("refresh");
    match op {
        BrightnessOp::Up { percent } => {
            text::lemma_dec_digits_val(percent as int);
            text::lemma_digits_sep_free(dec_digits(percent as int));
        },
        BrightnessOp::Down { percent } => {
            text::lemma_dec_digits_val(percent as int);
            text::lemma_digits_sep_free(dec_digits(percent as int));
        },
        BrightnessOp::SetTo { percent } => {
            text::lemma_dec_digits_val(percent as int);
            text::lemma_digits_sep_free(dec_digits(percent as int));
        },
        BrightnessOp::Refresh => {
        },
    }
}

/// Splitting the operation's wire text recovers its words.
pub proof fn lemma_split_op_text(op: BrightnessOp)
    ensures
        text::split_ch(op_text(op), ' ') == op_words(op),
{
    lemma_op_words_ok(op);
    match op {
        BrightnessOp::Up { percent } => {
            let d = dec_digits(percent as int);
            assert(op_words(op)[0] == "up"@ && op_words(op)[1] == d);
            text::lemma_split_step("up"@, ' ', d);
            text::lemma_split_single(d, ' ');
            assert(text::split_ch(op_text(op), ' ') =~~= op_words(op));
        },
        BrightnessOp::Down { percent } => {
            let d = dec_digits(percent as int);
            assert(op_words(op)[0] == "down"@ && op_words(op)[1] == d);
            text::lemma_split_step("down"@, ' ', d);
            text::lemma_split_single(d, ' ');
            assert(text::split_ch(op_text(op), ' ') =~~= op_words(op));
        },
        BrightnessOp::SetTo { percent } => {
            let d = dec_digits(percent as int);
            assert(op_words(op)[0] == "set"@ && op_words(op)[1] == d);
            text::lemma_split_step("set"@, ' ', d);
            text::lemma_split_single(d, ' ');
            assert(text::split_ch(op_text(op), ' ') =~~= op_words(op));
        },
        BrightnessOp::Refresh => {
            assert(op_words(op)[0] == "refresh"@);
            text::lemma_split_single("refresh"@, ' ');
            assert(text::split_ch(op_text(op), ' ') =~~= op_words(op));
        },
    }
}

// ---------------------------------------------------------------------------
// Effector commands and readings
// ---------------------------------------------------------------------------

pub open spec fn up_cmd_spec(percent: int) -> ExtCommandV {
    ExtCommandV { program: "brightnessctl"@, args: seq!["set"@, "+"@ + dec_digits(percent) + "%"@] }
}

pub open spec fn down_cmd_spec(percent: int) -> ExtCommandV {
    ExtCommandV { program: "brightnessctl"@, args: seq!["set"@, dec_digits(percent) + "%-"@] }
}

pub open spec fn set_cmd_spec(percent: int) -> ExtCommandV {
    ExtCommandV { program: "brightnessctl"@, args: seq!["set"@, dec_digits(percent) + "%"@] }
}

/// The backlight invocation an operation makes, if any.
pub open spec fn command_spec(operation: BrightnessOp) -> Option<ExtCommandV> {
    match operation {
        BrightnessOp::Up { percent } => Some(up_cmd_spec(percent as int)),
        BrightnessOp::Down { percent } => Some(down_cmd_spec(percent as int)),
        BrightnessOp::SetTo { percent } => Some(set_cmd_spec(percent as int)),
        BrightnessOp::Refresh => None,
    }
}

/// The delay before the refresh that follows a handled operation.
pub open spec fn refresh_delay_spec(operation: BrightnessOp) -> int {
    if operation is Refresh {
        500
    } else {
        0
    }
}

/// What dispatching one backlight operation amounts to.
pub struct BrightnessPlan {
    pub command: Option<ExtCommand>,
    pub refresh_delay_ms: u64,
}

/// The reading as a whole percentage of the maximum: `value * 100 / max`,
/// rounded half up, saturated at the widest expressible value.
pub open spec fn percent_of(value: int, max: int) -> int
    recommends
        max > 0,
{
    let q = (value * 100 + max / 2) / max;
    if q > u32::MAX {
        u32::MAX as int
    } else {
        q
    }
}

impl Brightness {
    /// Reads the current and maximum raw levels, as `brightnessctl get` and
    /// `brightnessctl max` printed them, and returns the whole percentage.
    /// A maximum of zero is the tool's failure.
    pub fn get(output: Vec<u8>, max_output: Vec<u8>) -> (r: Result<u32, Error>)
        ensures
            r == Brightness::get_spec(output@, max_output@),
    {
        let value = match utils::utf8_to_u32(output) {
            Ok(v) => v,
            Err(e) => {
                return Err(e);
            },
        };
        let max = match utils::utf8_to_u32(max_output) {
            Ok(v) => v,
            Err(e) => {
                return Err(e);
            },
        };
        if max == 0 {
            return Err(Error::ExternalTool);
        }
        let wide: u64 = (value as u64) * 100 + (max as u64) / 2;
        let q: u64 = wide / (max as u64);
        if q > u32::MAX as u64 {
            Ok(u32::MAX)
        } else {
            Ok(q as u32)
        }
    }

    /// What `get` returns for given tool outputs.
    pub open spec fn get_spec(output: Seq<u8>, max_output: Seq<u8>) -> Result<u32, Error> {
        match utils::utf8_to_u32_spec(output) {
            Ok(value) => match utils::utf8_to_u32_spec(max_output) {
                Ok(max) => if max == 0 {
                    Err(Error::ExternalTool)
                } else {
                    Ok(percent_of(value as int, max as int) as u32)
                },
                Err(e) => Err(e),
            },
            Err(e) => Err(e),
        }
    }

    /// The raw maximum level, as `brightnessctl max` printed it.
    pub fn max(output: Vec<u8>) -> (r: Result<u32, Error>)
        ensures
            r == utils::utf8_to_u32_spec(output@),
    {
        utils::utf8_to_u32(output)
    }

    /// Raises the level by `percent`; the tool caps at its maximum.
    pub fn up(percent: u32) -> (r: ExtCommand)
        requires
            percent <= 100,
        ensures
            r@ == up_cmd_spec(percent as int),
    {
        let mut c = ExtCommand::new("brightnessctl");
        c.arg("set");
        let mut a: String = "+".to_owned();
        a.append(text::fmt_u32(percent).as_str());
        a.append("%");
        c.arg_string(a);
        proof {
            assert(c@ =~~= up_cmd_spec(percent as int));
        }
        c
    }

    /// Lowers the level by `percent`; the tool stops at zero.
    pub fn down(percent: u32) -> (r: ExtCommand)
        requires
            percent <= 100,
        ensures
            r@ == down_cmd_spec(percent as int),
    {
        let mut c = ExtCommand::new("brightnessctl");
        c.arg("set");
        let mut a = text::fmt_u32(percent);
        a.append("%-");
        c.arg_string(a);
        proof {
            assert(c@ =~~= down_cmd_spec(percent as int));
        }
        c
    }

    /// Sets the level to `percent`.
    pub fn set(percent: u32) -> (r: ExtCommand)
        requires
            percent <= 100,
        ensures
            r@ == set_cmd_spec(percent as int),
    {
        let mut c = ExtCommand::new("brightnessctl");
        c.arg("set");
        let mut a = text::fmt_u32(percent);
        a.append("%");
        c.arg_string(a);
        proof {
            assert(c@ =~~= set_cmd_spec(percent as int));
        }
        c
    }

    /// Routes one backlight operation: the tool command it makes, if any,
    /// and the delay before the refresh that always follows.
    pub fn handle(operation: BrightnessOp) -> (r: BrightnessPlan)
        requires
            op_valid(operation),
        ensures
            r.command.deep_view() == command_spec(operation),
            r.refresh_delay_ms == refresh_delay_spec(operation),
    {
        match operation {
            BrightnessOp::Up { percent } => BrightnessPlan {
                command: Some(Brightness::up(percent)),
                refresh_delay_ms: 0,
            },
            BrightnessOp::Down { percent } => BrightnessPlan {
                command: Some(Brightness::down(percent)),
                refresh_delay_ms: 0,
            },
            BrightnessOp::SetTo { percent } => BrightnessPlan {
                command: Some(Brightness::set(percent)),
                refresh_delay_ms: 0,
            },
            BrightnessOp::Refresh => BrightnessPlan { command: None, refresh_delay_ms: 500 },
        }
    }
}

// ---------------------------------------------------------------------------
// The backlight snapshot
// ---------------------------------------------------------------------------

/// The icon that stands for a backlight level in the status bar.
pub open spec fn icon_of(value: u32) -> Seq<char> {
    if value >= 89 {
        " "@
    } else if value >= 78 {
        " "@
    } else if value >= 67 {
        " "@
    } else if value >= 56 {
        " "@
    } else if value >= 45 {
        " "@
    } else if value >= 34 {
        " "@
    } else if value >= 23 {
        " "@
    } else if value >= 12 {
        " "@
    } else {
        " "@
    }
}

/// One observation of the backlight: the whole percentage and its icon.
pub struct BrightnessState {
    pub value: u32,
    pub icon: String,
}

#[verifier::ext_equal]
pub struct BrightnessStateV {
    pub value: u32,
    pub icon: Seq<char>,
}

impl View for BrightnessState {
    type V = BrightnessStateV;

    open spec fn view(&self) -> BrightnessStateV {
        BrightnessStateV { value: self.value, icon: self.icon@ }
    }
}

/// What one brightness notification says.
pub open spec fn brightness_notify_spec(v: BrightnessStateV) -> crate::notify::NotifyRequestV {
    crate::notify::NotifyRequestV {
        summary: "Brightness"@,
        body: "Set to "@ + dec_digits(v.value as int) + "%"@,
        urgency: None,
        value: Some(v.value),
    }
}

/// The persisted record of a backlight snapshot.
pub open spec fn brightness_log_spec(v: BrightnessStateV) -> Seq<char> {
    "{\"value\":"@ + dec_digits(v.value as int) + ",\"icon\":"@ + json::json_string_spec(v.icon)
        + "}"@
}

impl BrightnessState {
    /// Builds the snapshot; the icon follows from the percentage.
    pub fn new(value: u32) -> (r: BrightnessState)
        ensures
            r@.value == value,
            r@.icon == icon_of(value),
    {
        let icon: String = if value >= 89 {
            " ".to_owned()
        } else if value >= 78 {
            " ".to_owned()
        } else if value >= 67 {
            " ".to_owned()
        } else if value >= 56 {
            " ".to_owned()
        } else if value >= 45 {
            " ".to_owned()
        } else if value >= 34 {
            " ".to_owned()
        } else if value >= 23 {
            " ".to_owned()
        } else if value >= 12 {
            " ".to_owned()
        } else {
            " ".to_owned()
        };
        BrightnessState { value, icon }
    }

    /// Structural equality of two snapshots, the transition test.
    pub fn same_as(&self, other: &BrightnessState) -> (r: bool)
        ensures
            r == (self@ == other@),
    {
        let r = self.value == other.value && self.icon == other.icon;
        proof {
            if r {
                assert(self@ =~= other@);
            }
        }
        r
    }

    /// What to tell the user about this state.
    pub fn notify(&self) -> (r: NotifyRequest)
        ensures
            r@ == brightness_notify_spec(self@),
    {
        let mut body: String = "Set to ".to_owned();
        body.append(text::fmt_u32(self.value).as_str());
        body.append("%");
        let r = NotifyRequest {
            summary: "Brightness".to_owned(),
            body,
            urgency: None,
            value: Some(self.value),
        };
        proof {
            assert(r@ =~= brightness_notify_spec(self@));
        }
        r
    }

    /// The record line to persist for this state.
    pub fn log(&self) -> (r: String)
        ensures
            r@ == brightness_log_spec(self@),
    {
        let mut s: String = "{\"value\":".to_owned();
        s.append(text::fmt_u32(self.value).as_str());
        s.append(",\"icon\":");
        s.append(json::json_string(self.icon.as_str()).as_str());
        s.append("}");
        proof {
            assert(s@ =~= brightness_log_spec(self@));
        }
        s
    }
}

} // verus!
