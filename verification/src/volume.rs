use vstd::prelude::*;
use vstd::string::*;
use crate::error::Error;
use crate::notify::NotifyRequest;
use crate::plan::{ExtCommand, ExtCommandV};
use crate::text;
use crate::text::{all_digits, dec_digits, dec_val, digit_val, parse_pct_spec, split_ch, trim_spec};
use crate::json;

verus! {

/// The audio mixer subsystem: it decides which `wpctl` invocations to make
/// and reads the mixer's answers back. The mixer is always addressed as the
/// default sink.
pub struct Volume;

/// One volume operation, as carried by a `volume ...` command.
#[derive(Clone, Copy, PartialEq, Eq, Structural, Debug)]
pub enum VolumeOp {
    /// Increase by a percentage.
    Up { percent: u32 },
    /// Decrease by a percentage.
    Down { percent: u32 },
    /// Set to a percentage.
    SetTo { percent: u32 },
    /// Toggle mute.
    Mute,
    /// Re-read the mixer state, notify and persist.
    Refresh,
}

// ---------------------------------------------------------------------------
// Operation text codec
// ---------------------------------------------------------------------------

/// Every percent a volume operation carries is within [0, 100]; the parser
/// establishes this before a handler runs.
pub open spec fn op_valid(op: VolumeOp) -> bool {
    match op {
        VolumeOp::Up { percent } => percent <= 100,
        VolumeOp::Down { percent } => percent <= 100,
        VolumeOp::SetTo { percent } => percent <= 100,
        VolumeOp::Mute => true,
        VolumeOp::Refresh => true,
    }
}

/// The words of an operation on the wire.
pub open spec fn op_words(op: VolumeOp) -> Seq<Seq<char>> {
    match op {
        VolumeOp::Up { percent } => seq!["up"@, dec_digits(percent as int)],
        VolumeOp::Down { percent } => seq!["down"@, dec_digits(percent as int)],
        VolumeOp::SetTo { percent } => seq!["set"@, dec_digits(percent as int)],
        VolumeOp::Mute => seq!["mute"@],
        VolumeOp::Refresh => seq!["refresh"@],
    }
}

/// What a word list after the `volume` domain word means. `up` and `down`
/// without an argument use the default step of five percent.
pub open spec fn parse_op_spec(ws: Seq<Seq<char>>) -> Option<VolumeOp> {
    if ws.len() == 1 {
        if ws[0] == "up"@ {
            Some(VolumeOp::Up { percent: 5 })
        } else if ws[0] == "down"@ {
            Some(VolumeOp::Down { percent: 5 })
        } else if ws[0] == "mute"@ {
            Some(VolumeOp::Mute)
        } else if ws[0] == "refresh"@ {
            Some(VolumeOp::Refresh)
        } else {
            None
        }
    } else if ws.len() == 2 {
        match parse_pct_spec(ws[1]) {
            Some(p) => if ws[0] == "up"@ {
                Some(VolumeOp::Up { percent: p })
            } else if ws[0] == "down"@ {
                Some(VolumeOp::Down { percent: p })
            } else if ws[0] == "set"@ {
                Some(VolumeOp::SetTo { percent: p })
            } else {
                None
            },
            None => None,
        }
    } else {
        None
    }
}

/// Reads the operation words that follow the domain word, `ws[at..]`.
pub fn parse_op(ws: &Vec<String>, at: usize) -> (r: Option<VolumeOp>)
    requires
        at <= ws@.len(),
    ensures
        r == parse_op_spec(ws.deep_view().skip(at as int)),
{
    let ghost tail = ws.deep_view().skip(at as int);
    let k = ws.len() - at;
    if k == 1 {
        proof {
            assert(tail[0] == ws@[at as int]@);
        }
        let w = &ws[at];
        if text::str_eq(w.as_str(), "up") {
            Some(VolumeOp::Up { percent: 5 })
        } else if text::str_eq(w.as_str(), "down") {
            Some(VolumeOp::Down { percent: 5 })
        } else if text::str_eq(w.as_str(), "mute") {
            Some(VolumeOp::Mute)
        } else if text::str_eq(w.as_str(), "refresh") {
            Some(VolumeOp::Refresh)
        } else {
            None
        }
    } else if k == 2 {
        proof {
            assert(tail[0] == ws@[at as int]@);
            assert(tail[1] == ws@[at as int + 1]@);
        }
        let w = &ws[at];
        match text::parse_pct(ws[at + 1].as_str()) {
            Some(p) => if text::str_eq(w.as_str(), "up") {
                Some(VolumeOp::Up { percent: p })
            } else if text::str_eq(w.as_str(), "down") {
                Some(VolumeOp::Down { percent: p })
            } else if text::str_eq(w.as_str(), "set") {
                Some(VolumeOp::SetTo { percent: p })
            } else {
                None
            },
            None => None,
        }
    } else {
        None
    }
}

/// The operation's wire text: its words joined with single spaces.
pub open spec fn op_text(op: VolumeOp) -> Seq<char> {
    match op {
        VolumeOp::Up { percent } => "up"@ + seq![' '] + dec_digits(percent as int),
        VolumeOp::Down { percent } => "down"@ + seq![' '] + dec_digits(percent as int),
        VolumeOp::SetTo { percent } => "set"@ + seq![' '] + dec_digits(percent as int),
        VolumeOp::Mute => "mute"@,
        VolumeOp::Refresh => "refresh"@,
    }
}

/// Writes the operation's wire text.
pub fn serialize_op(op: VolumeOp) -> (r: String)
    ensures
        r@ == op_text(op),
{
    proof {
        reveal_strlit("up");
        reveal_strlit("down");
        reveal_strlit("set");
        reveal_strlit("up ");
        reveal_strlit("down ");
        reveal_strlit("set ");
    }
    match op {
        VolumeOp::Up { percent } => {
            let mut s: String = "up ".to_owned();
            s.append(text::fmt_u32(percent).as_str());
            proof {
                assert("up "@ =~= "up"@ + seq![' ']);
            }
            s
        },
        VolumeOp::Down { percent } => {
            let mut s: String = "down ".to_owned();
            s.append(text::fmt_u32(percent).as_str());
            proof {
                assert("down "@ =~= "down"@ + seq![' ']);
            }
            s
        },
        VolumeOp::SetTo { percent } => {
            let mut s: String = "set ".to_owned();
            s.append(text::fmt_u32(percent).as_str());
            proof {
                assert("set "@ =~= "set"@ + seq![' ']);
            }
            s
        },
        VolumeOp::Mute => "mute".to_owned(),
        VolumeOp::Refresh => "refresh".to_owned(),
    }
}

/// Reading back the words of a valid operation returns the operation.
pub proof fn lemma_op_roundtrip(op: VolumeOp)
    requires
        op_valid(op),
    ensures
        parse_op_spec(op_words(op)) == Some(op),
{
    reveal_strlit("up");
    reveal_strlit("down");
    reveal_strlit("set");
    reveal_strlit("mute");
    reveal_strlit("refresh");
    match op {
        VolumeOp::Up { percent } => {
            text::lemma_dec_digits_val(percent as int);
        },
        VolumeOp::Down { percent } => {
            text::lemma_dec_digits_val(percent as int);
            text::lemma_seq_ne_len("down"@, "up"@);
        },
        VolumeOp::SetTo { percent } => {
            text::lemma_dec_digits_val(percent as int);
            text::lemma_seq_ne_len("set"@, "up"@);
            text::lemma_seq_ne_len("set"@, "down"@);
        },
        VolumeOp::Mute => {
            text::lemma_seq_ne_len("mute"@, "up"@);
            text::lemma_seq_ne_at("mute"@, "down"@, 0);
        },
        VolumeOp::Refresh => {
            text::lemma_seq_ne_len("refresh"@, "up"@);
            text::lemma_seq_ne_len("refresh"@, "down"@);
            text::lemma_seq_ne_len("refresh"@, "mute"@);
        },
    }
}

/// Whatever parses is valid: the parser never hands a handler a percent
/// above one hundred.
pub proof fn lemma_parse_op_valid(ws: Seq<Seq<char>>)
    ensures
        parse_op_spec(ws) matches Some(op) ==> op_valid(op),
{
    if ws.len() == 2 && parse_pct_spec(ws[1]) is Some {
        text::lemma_dec_val_nonneg(ws[1]);
    }
}

/// Every word of an operation is nonempty and free of spaces, so joining
/// with spaces and splitting again is lossless.
pub proof fn lemma_op_words_ok(op: VolumeOp)
    ensures
        forall|i: int|
            0 <= i < op_words(op).len() ==> (#[trigger] op_words(op)[i]).len() > 0
                && text::sep_free(op_words(op)[i], ' '),
        op_words(op).len() >= 1,
{
    reveal_strlit("up");
    reveal_strlit("down");
    reveal_strlit("set");
    reveal_strlit("mute");
    reveal_strlit("refresh");
    match op {
        VolumeOp::Up { percent } => {
            text::lemma_dec_digits_val(percent as int);
            text::lemma_digits_sep_free(dec_digits(percent as int));
        },
        VolumeOp::Down { percent } => {
            text::lemma_dec_digits_val(percent as int);
            text::lemma_digits_sep_free(dec_digits(percent as int));
        },
        VolumeOp::SetTo { percent } => {
            text::lemma_dec_digits_val(percent as int);
            text::lemma_digits_sep_free(dec_digits(percent as int));
        },
        VolumeOp::Mute => {
        },
        VolumeOp::Refresh => {
        },
    }
}

/// Splitting the operation's wire text recovers its words.
pub proof fn lemma_split_op_text(op: VolumeOp)
    ensures
        split_ch(op_text(op), ' ') == op_words(op),
{
    lemma_op_words_ok(op);
    match op {
        VolumeOp::Up { percent } => {
            let d = dec_digits(percent as int);
            assert(op_words(op)[0] == "up"@ && op_words(op)[1] == d);
            text::lemma_split_step("up"@, ' ', d);
            text::lemma_split_single(d, ' ');
            assert(split_ch(op_text(op), ' ') =~~= op_words(op));
        },
        VolumeOp::Down { percent } => {
            let d = dec_digits(percent as int);
            assert(op_words(op)[0] == "down"@ && op_words(op)[1] == d);
            text::lemma_split_step("down"@, ' ', d);
            text::lemma_split_single(d, ' ');
            assert(split_ch(op_text(op), ' ') =~~= op_words(op));
        },
        VolumeOp::SetTo { percent } => {
            let d = dec_digits(percent as int);
            assert(op_words(op)[0] == "set"@ && op_words(op)[1] == d);
            text::lemma_split_step("set"@, ' ', d);
            text::lemma_split_single(d, ' ');
            assert(split_ch(op_text(op), ' ') =~~= op_words(op));
        },
        VolumeOp::Mute => {
            assert(op_words(op)[0] == "mute"@);
            text::lemma_split_single("mute"@, ' ');
            assert(split_ch(op_text(op), ' ') =~~= op_words(op));
        },
        VolumeOp::Refresh => {
            assert(op_words(op)[0] == "refresh"@);
            text::lemma_split_single("refresh"@, ' ');
            assert(split_ch(op_text(op), ' ') =~~= op_words(op));
        },
    }
}

// ---------------------------------------------------------------------------
// Reading the mixer's answers
// ---------------------------------------------------------------------------

/// The value of up to two fractional digits, in hundredths, rounded half up
/// by looking at the third digit.
pub open spec fn cents(f: Seq<char>) -> int
    recommends
        all_digits(f),
{
    if f.len() == 0 {
        0
    } else {
        digit_val(f[0]) * 10 + (if f.len() >= 2 {
            digit_val(f[1])
        } else {
            0
        }) + (if f.len() >= 3 && digit_val(f[2]) >= 5 {
            1int
        } else {
            0int
        })
    }
}

/// A decimal level as `wpctl` prints it, `1` or `0.40`, read as a whole
/// percentage: the value times one hundred, rounded at the second decimal.
pub open spec fn level_spec(w: Seq<char>) -> Option<u32> {
    let parts = split_ch(w, '.');
    if parts.len() == 1 {
        if parts[0].len() >= 1 && all_digits(parts[0]) && dec_val(parts[0]) * 100 <= u32::MAX {
            Some((dec_val(parts[0]) * 100) as u32)
        } else {
            None
        }
    } else if parts.len() == 2 {
        if parts[0].len() + parts[1].len() >= 1 && all_digits(parts[0]) && all_digits(parts[1])
            && dec_val(parts[0]) * 100 + cents(parts[1]) <= u32::MAX {
            Some((dec_val(parts[0]) * 100 + cents(parts[1])) as u32)
        } else {
            None
        }
    } else {
        None
    }
}

/// In hundredths, a fraction is at most a whole: the rounded two-digit
/// reading of any digit string stays within [0, 100].
pub proof fn lemma_cents_bound(f: Seq<char>)
    requires
        all_digits(f),
    ensures
        0 <= cents(f) <= 100,
{
    if f.len() > 0 {
        assert(text::is_digit(f[0]));
        if f.len() >= 2 {
            assert(text::is_digit(f[1]));
        }
    }
}

fn level(w: &str) -> (r: Option<u32>)
    ensures
        r == level_spec(w@),
{
    let parts = text::split_str(w, '.');
    proof {
        text::lemma_split_len(w@, '.');
        assert(parts.deep_view().len() == parts@.len());
        assert(parts.deep_view()[0] == parts@[0]@);
    }
    if parts.len() == 1 {
        let ghost p = parts.deep_view()[0];
        let whole = match text::parse_u32(parts[0].as_str()) {
            Some(v) => v,
            None => {
                proof {
                    if p.len() >= 1 && all_digits(p) {
                        text::lemma_dec_val_nonneg(p);
                    }
                }
                return None;
            },
        };
        proof {
            text::lemma_dec_val_nonneg(p);
            assert(whole == dec_val(p));
        }
        match whole.checked_mul(100) {
            Some(v) => Some(v),
            None => None,
        }
    } else if parts.len() == 2 {
        proof {
            assert(parts.deep_view()[1] == parts@[1]@);
        }
        let ghost p0v = parts.deep_view()[0];
        let ghost p1v = parts.deep_view()[1];
        let p0 = &parts[0];
        let p1 = &parts[1];
        if p0.as_str().unicode_len() == 0 && p1.as_str().unicode_len() == 0 {
            return None;
        }
        if !text::all_digits_str(p1.as_str()) {
            return None;
        }
        proof {
            lemma_cents_bound(p1v);
        }
        let whole: u32 = if p0.as_str().unicode_len() == 0 {
            proof {
                assert(all_digits(p0v));
                assert(dec_val(p0v) == 0);
            }
            0
        } else {
            match text::parse_u32(p0.as_str()) {
                Some(v) => v,
                None => {
                    proof {
                        if all_digits(p0v) {
                            text::lemma_dec_val_nonneg(p0v);
                        }
                    }
                    return None;
                },
            }
        };
        proof {
            text::lemma_dec_val_nonneg(p0v);
            assert(whole == dec_val(p0v));
        }
        let frac: u32 = level_cents(p1.as_str());
        match whole.checked_mul(100) {
            Some(m) => match m.checked_add(frac) {
                Some(v) => Some(v),
                None => None,
            },
            None => None,
        }
    } else {
        None
    }
}

fn level_cents(f: &str) -> (r: u32)
    requires
        all_digits(f@),
    ensures
        r == cents(f@),
        r <= 100,
{
    let n: usize = f.unicode_len();
    if n == 0 {
        return 0;
    }
    let d0 = f.get_char(0) as u32 - 48;
    let d1: u32 = if n >= 2 {
        f.get_char(1) as u32 - 48
    } else {
        0
    };
    let bump: u32 = if n >= 3 && f.get_char(2) as u32 - 48 >= 5 {
        1
    } else {
        0
    };
    d0 * 10 + d1 + bump
}

impl Volume {
    /// The mixer answered at all: an empty standard-error stream from the
    /// query means the sink is present and working.
    pub fn working(stderr: &Vec<u8>) -> (r: bool)
        ensures
            r == (stderr@.len() == 0),
    {
        stderr.len() == 0
    }

    /// The query output marks a muted sink with the word `MUTED`.
    pub fn muted(stdout: &str) -> (r: bool)
        ensures
            r == text::contains_sub(stdout@, "MUTED"@),
    {
        text::contains_str(stdout, "MUTED")
    }

    /// Reads the current level out of the `wpctl get-volume` output, the
    /// second whitespace-separated word, as a whole percentage. A sink that
    /// is not working reads as zero; output in any other shape is the
    /// tool's failure.
    pub fn get(stdout: &str, working: bool) -> (r: Result<u32, Error>)
        ensures
            r == Volume::get_spec(stdout@, working),
    {
        if !working {
            return Ok(0);
        }
        let ws = text::split_str(stdout, ' ');
        proof {
            text::lemma_split_len(stdout@, ' ');
        }
        if ws.len() < 2 {
            return Err(Error::ExternalTool);
        }
        proof {
            assert(ws.deep_view()[1] == ws@[1]@);
        }
        let t = text::trim(ws[1].as_str());
        match level(t.as_str()) {
            Some(v) => Ok(v),
            None => Err(Error::ExternalTool),
        }
    }

    /// What `get` returns for a given query output.
    pub open spec fn get_spec(out: Seq<char>, working: bool) -> Result<u32, Error> {
        if !working {
            Ok(0)
        } else {
            let ws = split_ch(out, ' ');
            if ws.len() < 2 {
                Err(Error::ExternalTool)
            } else {
                match level_spec(trim_spec(ws[1])) {
                    Some(v) => Ok(v),
                    None => Err(Error::ExternalTool),
                }
            }
        }
    }
}

// ---------------------------------------------------------------------------
// Effector commands
// ---------------------------------------------------------------------------

/// The default audio sink, as `wpctl` addresses it.
pub open spec fn sink() -> Seq<char> {
    "@DEFAULT_AUDIO_SINK@"@
}

pub open spec fn up_cmd_spec(percent: int) -> ExtCommandV {
    ExtCommandV {
        program: "wpctl"@,
        args: seq!["set-volume"@, sink(), dec_digits(percent) + "%+"@, "-l"@, "1"@],
    }
}

pub open spec fn down_cmd_spec(percent: int) -> ExtCommandV {
    ExtCommandV { program: "wpctl"@, args: seq!["set-volume"@, sink(), dec_digits(percent) + "%-"@] }
}

pub open spec fn set_cmd_spec(percent: int) -> ExtCommandV {
    ExtCommandV {
        program: "wpctl"@,
        args: seq!["set-volume"@, sink(), dec_digits(percent) + "%"@, "-l"@, "1"@],
    }
}

pub open spec fn mute_cmd_spec() -> ExtCommandV {
    ExtCommandV { program: "wpctl"@, args: seq!["set-mute"@, sink(), "toggle"@] }
}

/// The mixer invocation an operation makes, if any. While the sink is muted
/// the level-changing operations make none.
pub open spec fn command_spec(operation: VolumeOp, muted: bool) -> Option<ExtCommandV> {
    match operation {
        VolumeOp::Up { percent } => if muted {
            None
        } else {
            Some(up_cmd_spec(percent as int))
        },
        VolumeOp::Down { percent } => if muted {
            None
        } else {
            Some(down_cmd_spec(percent as int))
        },
        VolumeOp::SetTo { percent } => if muted {
            None
        } else {
            Some(set_cmd_spec(percent as int))
        },
        VolumeOp::Mute => Some(mute_cmd_spec()),
        VolumeOp::Refresh => None,
    }
}

/// How long a handler waits before the refresh that follows it, in
/// milliseconds: only an explicit refresh waits for the mixer to settle.
pub open spec fn refresh_delay_spec(operation: VolumeOp) -> int {
    if operation is Refresh {
        500
    } else {
        0
    }
}

/// What dispatching one volume operation amounts to: at most one mixer
/// command, then a refresh after the given delay.
pub struct VolumePlan {
    pub command: Option<ExtCommand>,
    pub refresh_delay_ms: u64,
}

fn pct_arg(percent: u32, suffix: &str) -> (r: String)
    ensures
        r@ == dec_digits(percent as int) + suffix@,
{
    let mut s = text::fmt_u32(percent);
    s.append(suffix);
    s
}

impl Volume {
    /// Raises the level by `percent`, unless muted; the mixer caps at 100%.
    pub fn up(muted: bool, percent: u32) -> (r: Option<ExtCommand>)
        requires
            percent <= 100,
        ensures
            r.deep_view() == command_spec(VolumeOp::Up { percent }, muted),
    {
        if muted {
            return None;
        }
        let mut c = ExtCommand::new("wpctl");
        c.arg("set-volume");
        c.arg("@DEFAULT_AUDIO_SINK@");
        c.arg_string(pct_arg(percent, "%+"));
        c.arg("-l");
        c.arg("1");
        proof {
            assert(c@ =~~= up_cmd_spec(percent as int));
        }
        Some(c)
    }

    /// Lowers the level by `percent`, unless muted.
    pub fn down(muted: bool, percent: u32) -> (r: Option<ExtCommand>)
        requires
            percent <= 100,
        ensures
            r.deep_view() == command_spec(VolumeOp::Down { percent }, muted),
    {
        if muted {
            return None;
        }
        let mut c = ExtCommand::new("wpctl");
        c.arg("set-volume");
        c.arg("@DEFAULT_AUDIO_SINK@");
        c.arg_string(pct_arg(percent, "%-"));
        proof {
            assert(c@ =~~= down_cmd_spec(percent as int));
        }
        Some(c)
    }

    /// Sets the level to `percent`, unless muted.
    pub fn set(muted: bool, percent: u32) -> (r: Option<ExtCommand>)
        requires
            percent <= 100,
        ensures
            r.deep_view() == command_spec(VolumeOp::SetTo { percent }, muted),
    {
        if muted {
            return None;
        }
        let mut c = ExtCommand::new("wpctl");
        c.arg("set-volume");
        c.arg("@DEFAULT_AUDIO_SINK@");
        c.arg_string(pct_arg(percent, "%"));
        c.arg("-l");
        c.arg("1");
        proof {
            assert(c@ =~~= set_cmd_spec(percent as int));
        }
        Some(c)
    }

    /// Toggles mute; this one always reaches the mixer.
    pub fn mute() -> (r: ExtCommand)
        ensures
            r@ == mute_cmd_spec(),
    {
        let mut c = ExtCommand::new("wpctl");
        c.arg("set-mute");
        c.arg("@DEFAULT_AUDIO_SINK@");
        c.arg("toggle");
        proof {
            assert(c@ =~~= mute_cmd_spec());
        }
        c
    }

    /// Routes one volume operation: the mixer command it makes, if any, and
    /// the delay before the refresh that always follows.
    pub fn handle(operation: VolumeOp, muted: bool) -> (r: VolumePlan)
        requires
            op_valid(operation),
        ensures
            r.command.deep_view() == command_spec(operation, muted),
            r.refresh_delay_ms == refresh_delay_spec(operation),
    {
        match operation {
            VolumeOp::Up { percent } => VolumePlan {
                command: Volume::up(muted, percent),
                refresh_delay_ms: 0,
            },
            VolumeOp::Down { percent } => VolumePlan {
                command: Volume::down(muted, percent),
                refresh_delay_ms: 0,
            },
            VolumeOp::SetTo { percent } => VolumePlan {
                command: Volume::set(muted, percent),
                refresh_delay_ms: 0,
            },
            VolumeOp::Mute => VolumePlan { command: Some(Volume::mute()), refresh_delay_ms: 0 },
            VolumeOp::Refresh => VolumePlan { command: None, refresh_delay_ms: 500 },
        }
    }
}

/// Mute suppression: while muted, `up`, `down` and `set` issue no mixer
/// command at all, so the level the following refresh reads back, and
/// persists, is the level that was already there; the refresh itself is
/// immediate and still re-reads the muted and working fields.
pub proof fn lemma_mute_suppression(operation: VolumeOp)
    requires
        operation is Up || operation is Down || operation is SetTo,
    ensures
        command_spec(operation, true) is None,
        refresh_delay_spec(operation) == 0,
{
}

// ---------------------------------------------------------------------------
// The volume snapshot
// ---------------------------------------------------------------------------

/// The icon that stands for a mixer state in the status bar.
pub open spec fn icon_of(value: u32, muted: bool, working: bool) -> Seq<char> {
    if !working || muted {
        "󰝟 "@
    } else if value >= 40 {
        "󰕾 "@
    } else if value >= 20 {
        "󰖀 "@
    } else {
        "󰕿 "@
    }
}

/// One observation of the mixer: level, mute flag, whether the sink
/// answered, and the icon derived from the three.
pub struct VolumeState {
    pub value: u32,
    pub muted: bool,
    pub working: bool,
    pub icon: String,
}

#[verifier::ext_equal]
pub struct VolumeStateV {
    pub value: u32,
    pub muted: bool,
    pub working: bool,
    pub icon: Seq<char>,
}

impl View for VolumeState {
    type V = VolumeStateV;

    open spec fn view(&self) -> VolumeStateV {
        VolumeStateV {
            value: self.value,
            muted: self.muted,
            working: self.working,
            icon: self.icon@,
        }
    }
}

/// What one volume notification says.
pub open spec fn volume_notify_spec(v: VolumeStateV) -> crate::notify::NotifyRequestV {
    if !v.working {
        crate::notify::NotifyRequestV {
            summary: "Volume"@,
            body: "No output"@,
            urgency: None,
            value: None,
        }
    } else if v.muted {
        crate::notify::NotifyRequestV {
            summary: "Volume"@,
            body: "Muted"@,
            urgency: None,
            value: None,
        }
    } else {
        crate::notify::NotifyRequestV {
            summary: "Volume"@,
            body: "Set to "@ + dec_digits(v.value as int) + "%"@,
            urgency: None,
            value: Some(v.value),
        }
    }
}

/// The persisted record of a volume snapshot, one JSON object on one line.
pub open spec fn volume_log_spec(v: VolumeStateV) -> Seq<char> {
    "{\"value\":"@ + dec_digits(v.value as int) + ",\"muted\":"@ + json::bool_text(v.muted)
        + ",\"working\":"@ + json::bool_text(v.working) + ",\"icon\":"@ + json::json_string_spec(
        v.icon,
    ) + "}"@
}

impl VolumeState {
    /// Builds the snapshot; the icon follows from the three readings.
    pub fn new(value: u32, muted: bool, working: bool) -> (r: VolumeState)
        ensures
            r@.value == value,
            r@.muted == muted,
            r@.working == working,
            r@.icon == icon_of(value, muted, working),
    {
        let icon: String = if !working || muted {
            "󰝟 ".to_owned()
        } else if value >= 40 {
            "󰕾 ".to_owned()
        } else if value >= 20 {
            "󰖀 ".to_owned()
        } else {
            "󰕿 ".to_owned()
        };
        VolumeState { value, muted, working, icon }
    }

    /// Structural equality of two snapshots, the transition test.
    pub fn same_as(&self, other: &VolumeState) -> (r: bool)
        ensures
            r == (self@ == other@),
    {
        let r = self.value == other.value && self.muted == other.muted && self.working
            == other.working && self.icon == other.icon;
        proof {
            if r {
                assert(self@ =~= other@);
            }
        }
        r
    }

    /// What to tell the user about this state.
    pub fn notify(&self) -> (r: NotifyRequest)
        ensures
            r@ == volume_notify_spec(self@),
    {
        let r = if !self.working {
            NotifyRequest {
                summary: "Volume".to_owned(),
                body: "No output".to_owned(),
                urgency: None,
                value: None,
            }
        } else if self.muted {
            NotifyRequest {
                summary: "Volume".to_owned(),
                body: "Muted".to_owned(),
                urgency: None,
                value: None,
            }
        } else {
            let mut body: String = "Set to ".to_owned();
            body.append(text::fmt_u32(self.value).as_str());
            body.append("%");
            NotifyRequest {
                summary: "Volume".to_owned(),
                body,
                urgency: None,
                value: Some(self.value),
            }
        };
        proof {
            assert(r@ =~= volume_notify_spec(self@));
        }
        r
    }

    /// The record line to persist for this state.
    pub fn log(&self) -> (r: String)
        ensures
            r@ == volume_log_spec(self@),
    {
        let mut s: String = "{\"value\":".to_owned();
        s.append(text::fmt_u32(self.value).as_str());
        s.append(",\"muted\":");
        s.append(json::bool_str(self.muted));
        s.append(",\"working\":");
        s.append(json::bool_str(self.working));
        s.append(",\"icon\":");
        s.append(json::json_string(self.icon.as_str()).as_str());
        s.append("}");
        proof {
            assert(s@ =~= volume_log_spec(self@));
        }
        s
    }
}

} // verus!
