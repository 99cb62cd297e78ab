use vstd::prelude::*;
use vstd::string::*;
use crate::plan::{ExtCommand, ExtCommandV};
use crate::text;

verus! {

/// The session subsystem in its `login1` form: operations become calls on
/// the system bus's login manager, plus a few external commands.
#[derive(Clone)]
pub struct System;

/// One session operation, as carried by a `power ...` command.
#[derive(Clone, Copy, PartialEq, Eq, Structural, Debug)]
pub enum SystemOp {
    /// Turn the machine off.
    Poweroff,
    /// Reboot the machine.
    Reboot,
    /// Suspend, locking the session on the way.
    Suspend,
    /// Lock the session.
    Lock,
    /// Hold or release the idle inhibitor.
    Inhibit { operation: InhibitOp },
}

#[derive(Clone, Copy, PartialEq, Eq, Structural, Debug)]
pub enum InhibitOp {
    On,
    Off,
}

/// One step of a session plan: a method call on the login manager, an
/// external command, or holding the process open to keep an inhibitor lease.
pub enum SessionStep {
    /// Call the named login-manager method with one boolean argument, the
    /// interactivity flag.
    Login { method: String, interactive: bool },
    /// Take an inhibitor lease with the four string arguments the login
    /// manager expects.
    Inhibit { what: String, who: String, why: String, mode: String },
    /// Run an external command.
    Run(ExtCommand),
    /// Keep the process alive so the lease it holds stays valid.
    HoldOpen,
}

#[verifier::ext_equal]
pub enum SessionStepV {
    Login { method: Seq<char>, interactive: bool },
    Inhibit { what: Seq<char>, who: Seq<char>, why: Seq<char>, mode: Seq<char> },
    Run(ExtCommandV),
    HoldOpen,
}

impl View for SessionStep {
    type V = SessionStepV;

    open spec fn view(&self) -> SessionStepV {
        match self {
            SessionStep::Login { method, interactive } => SessionStepV::Login {
                method: method@,
                interactive: *interactive,
            },
            SessionStep::Inhibit { what, who, why, mode } => SessionStepV::Inhibit {
                what: what@,
                who: who@,
                why: why@,
                mode: mode@,
            },
            SessionStep::Run(c) => SessionStepV::Run(c@),
            SessionStep::HoldOpen => SessionStepV::HoldOpen,
        }
    }
}

impl DeepView for SessionStep {
    type V = SessionStepV;

    open spec fn deep_view(&self) -> SessionStepV {
        self.view()
    }
}

// ---------------------------------------------------------------------------
// Operation text codec
// ---------------------------------------------------------------------------

/// The words of an operation on the wire.
pub open spec fn op_words(op: SystemOp) -> Seq<Seq<char>> {
    match op {
        SystemOp::Poweroff => seq!["poweroff"@],
        SystemOp::Reboot => seq!["reboot"@],
        SystemOp::Suspend => seq!["suspend"@],
        SystemOp::Lock => seq!["lock"@],
        SystemOp::Inhibit { operation } => seq![
            "inhibit"@,
            if operation is On {
                "on"@
            } else {
                "off"@
            },
        ],
    }
}

/// What a word list after the `power` domain word means.
pub open spec fn parse_op_spec(ws: Seq<Seq<char>>) -> Option<SystemOp> {
    if ws.len() == 1 {
        if ws[0] == "poweroff"@ {
            Some(SystemOp::Poweroff)
        } else if ws[0] == "reboot"@ {
            Some(SystemOp::Reboot)
        } else if ws[0] == "suspend"@ {
            Some(SystemOp::Suspend)
        } else if ws[0] == "lock"@ {
            Some(SystemOp::Lock)
        } else {
            None
        }
    } else if ws.len() == 2 && ws[0] == "inhibit"@ {
        if ws[1] == "on"@ {
            Some(SystemOp::Inhibit { operation: InhibitOp::On })
        } else if ws[1] == "off"@ {
            Some(SystemOp::Inhibit { operation: InhibitOp::Off })
        } else {
            None
        }
    } else {
        None
    }
}

/// Reads the operation words that follow the domain word, `ws[at..]`.
pub fn parse_op(ws: &Vec<String>, at: usize) -> (r: Option<SystemOp>)
    requires
        at <= ws@.len(),
    ensures
        r == parse_op_spec(ws.deep_view().skip(at as int)),
{
    let ghost tail = ws.deep_view().skip(at as int);
    let k = ws.len() - at;
    if k == 1 {
        proof {
            assert(tail[0] == ws@[at as int]@);
        }
        let w = &ws[at];
        if text::str_eq(w.as_str(), "poweroff") {
            Some(SystemOp::Poweroff)
        } else if text::str_eq(w.as_str(), "reboot") {
            Some(SystemOp::Reboot)
        } else if text::str_eq(w.as_str(), "suspend") {
            Some(SystemOp::Suspend)
        } else if text::str_eq(w.as_str(), "lock") {
            Some(SystemOp::Lock)
        } else {
            None
        }
    } else if k == 2 {
        proof {
            assert(tail[0] == ws@[at as int]@);
            assert(tail[1] == ws@[at as int + 1]@);
        }
        if !text::str_eq(ws[at].as_str(), "inhibit") {
            return None;
        }
        let w = &ws[at + 1];
        if text::str_eq(w.as_str(), "on") {
            Some(SystemOp::Inhibit { operation: InhibitOp::On })
        } else if text::str_eq(w.as_str(), "off") {
            Some(SystemOp::Inhibit { operation: InhibitOp::Off })
        } else {
            None
        }
    } else {
        None
    }
}

/// The operation's wire text: its words joined with single spaces.
pub open spec fn op_text(op: SystemOp) -> Seq<char> {
    match op {
        SystemOp::Poweroff => "poweroff"@,
        SystemOp::Reboot => "reboot"@,
        SystemOp::Suspend => "suspend"@,
        SystemOp::Lock => "lock"@,
        SystemOp::Inhibit { operation } => "inhibit"@ + seq![' '] + (if operation is On {
            "on"@
        } else {
            "off"@
        }),
    }
}

/// Writes the operation's wire text.
pub fn serialize_op(op: SystemOp) -> (r: String)
    ensures
        r@ == op_text(op),
{
    proof {
        reveal_strlit("inhibit");
        reveal_strlit("inhibit ");
        reveal_strlit("on");
        reveal_strlit("off");
    }
    match op {
        SystemOp::Poweroff => "poweroff".to_owned(),
        SystemOp::Reboot => "reboot".to_owned(),
        SystemOp::Suspend => "suspend".to_owned(),
        SystemOp::Lock => "lock".to_owned(),
        SystemOp::Inhibit { operation } => {
            let mut s: String = "inhibit ".to_owned();
            if matches!(operation, InhibitOp::On) {
                s.append("on");
            } else {
                s.append("off");
            }
            proof {
                assert("inhibit "@ =~= "inhibit"@ + seq![' ']);
            }
            s
        },
    }
}

/// Reading back the words of an operation returns the operation.
pub proof fn lemma_op_roundtrip(op: SystemOp)
    ensures
        parse_op_spec(op_words(op)) == Some(op),
{
    reveal_strlit("poweroff");
    reveal_strlit("reboot");
    reveal_strlit("suspend");
    reveal_strlit("lock");
    reveal_strlit("inhibit");
    reveal_strlit("on");
    reveal_strlit("off");
    match op {
        SystemOp::Poweroff => {
        },
        SystemOp::Reboot => {
            text::lemma_seq_ne_len("reboot"@, "poweroff"@);
        },
        SystemOp::Suspend => {
            text::lemma_seq_ne_len("suspend"@, "poweroff"@);
            text::lemma_seq_ne_len("suspend"@, "reboot"@);
        },
        SystemOp::Lock => {
            text::lemma_seq_ne_len("lock"@, "poweroff"@);
            text::lemma_seq_ne_len("lock"@, "reboot"@);
            text::lemma_seq_ne_len("lock"@, "suspend"@);
        },
        SystemOp::Inhibit { operation } => {
            if operation is On {
                text::lemma_seq_ne_len("on"@, "off"@);
            }
        },
    }
}

/// Every word of an operation is nonempty and free of spaces.
pub proof fn lemma_op_words_ok(op: SystemOp)
    ensures
        forall|i: int|
            0 <= i < op_words(op).len() ==> (#[trigger] op_words(op)[i]).len() > 0
                && text::sep_free(op_words(op)[i], ' '),
        op_words(op).len() >= 1,
{
    reveal_strlit("poweroff");
    reveal_strlit("reboot");
    reveal_strlit("suspend");
    reveal_strlit("lock");
    reveal_strlit("inhibit");
    reveal_strlit("on");
    reveal_strlit("off");
}

/// Splitting the operation's wire text recovers its words.
pub proof fn lemma_split_op_text(op: SystemOp)
    ensures
        text::split_ch(op_text(op), ' ') == op_words(op),
{
    lemma_op_words_ok(op);
    match op {
        SystemOp::Poweroff => {
            assert(op_words(op)[0] == "poweroff"@);
            text::lemma_split_single("poweroff"@, ' ');
            assert(text::split_ch(op_text(op), ' ') =~~= op_words(op));
        },
        SystemOp::Reboot => {
            assert(op_words(op)[0] == "reboot"@);
            text::lemma_split_single("reboot"@, ' ');
            assert(text::split_ch(op_text(op), ' ') =~~= op_words(op));
        },
        SystemOp::Suspend => {
            assert(op_words(op)[0] == "suspend"@);
            text::lemma_split_single("suspend"@, ' ');
            assert(text::split_ch(op_text(op), ' ') =~~= op_words(op));
        },
        SystemOp::Lock => {
            assert(op_words(op)[0] == "lock"@);
            text::lemma_split_single("lock"@, ' ');
            assert(text::split_ch(op_text(op), ' ') =~~= op_words(op));
        },
        SystemOp::Inhibit { operation } => {
            let w = if operation is On {
                "on"@
            } else {
                "off"@
            };
            assert(op_words(op)[0] == "inhibit"@ && op_words(op)[1] == w);
            text::lemma_split_step("inhibit"@, ' ', w);
            text::lemma_split_single(w, ' ');
            assert(text::split_ch(op_text(op), ' ') =~~= op_words(op));
        },
    }
}

// ---------------------------------------------------------------------------
// Session plans
// ---------------------------------------------------------------------------

pub open spec fn login_spec(method: Seq<char>) -> SessionStepV {
    SessionStepV::Login { method, interactive: true }
}

/// The screen locker pair: stop a stale locker, start a fresh one.
pub open spec fn lock_steps_spec() -> Seq<SessionStepV> {
    seq![
        SessionStepV::Run(ExtCommandV { program: "pkill"@, args: seq!["swaylock"@] }),
        SessionStepV::Run(ExtCommandV { program: "swaylock"@, args: seq!["-f"@] }),
    ]
}

/// The step sequence one operation runs.
pub open spec fn steps_spec(op: SystemOp) -> Seq<SessionStepV> {
    match op {
        SystemOp::Poweroff => seq![login_spec("poweroff"@)],
        SystemOp::Reboot => seq![login_spec("Reboot"@)],
        SystemOp::Suspend => seq![login_spec("Suspend"@)] + lock_steps_spec(),
        SystemOp::Lock => lock_steps_spec(),
        SystemOp::Inhibit { operation } => if operation is On {
            seq![
                SessionStepV::Inhibit {
                    what: "idle"@,
                    who: "emanager"@,
                    why: "Idle inhibitor"@,
                    mode: "block"@,
                },
                SessionStepV::HoldOpen,
            ]
        } else {
            seq![
                SessionStepV::Run(
                    ExtCommandV {
                        program: "pkill"@,
                        args: seq!["-f"@, "emanager system inhibit on"@],
                    },
                ),
            ]
        },
    }
}

fn login_step(method: &str) -> (r: SessionStep)
    ensures
        r@ == login_spec(method@),
{
    SessionStep::Login { method: method.to_owned(), interactive: true }
}

fn lock_steps() -> (r: Vec<SessionStep>)
    ensures
        r.deep_view() == lock_steps_spec(),
{
    let mut r: Vec<SessionStep> = Vec::new();
    let mut kill = ExtCommand::new("pkill");
    kill.arg("swaylock");
    r.push(SessionStep::Run(kill));
    let mut lock = ExtCommand::new("swaylock");
    lock.arg("-f");
    r.push(SessionStep::Run(lock));
    proof {
        assert(r.deep_view() =~~= lock_steps_spec());
    }
    r
}

impl System {
    /// The steps that turn the machine off. The login manager spells the
    /// method with a capital, but this caller has always asked for
    /// `poweroff` and relies on the bus to refuse it gracefully.
    pub fn poweroff() -> (r: Vec<SessionStep>)
        ensures
            r.deep_view() == steps_spec(SystemOp::Poweroff),
    {
        let mut r: Vec<SessionStep> = Vec::new();
        r.push(login_step("poweroff"));
        proof {
            assert(r.deep_view() =~~= steps_spec(SystemOp::Poweroff));
        }
        r
    }

    /// The steps that reboot the machine.
    pub fn reboot() -> (r: Vec<SessionStep>)
        ensures
            r.deep_view() == steps_spec(SystemOp::Reboot),
    {
        let mut r: Vec<SessionStep> = Vec::new();
        r.push(login_step("Reboot"));
        proof {
            assert(r.deep_view() =~~= steps_spec(SystemOp::Reboot));
        }
        r
    }

    /// The steps that suspend the machine and lock the session behind it.
    pub fn suspend() -> (r: Vec<SessionStep>)
        ensures
            r.deep_view() == steps_spec(SystemOp::Suspend),
    {
        let mut r: Vec<SessionStep> = Vec::new();
        r.push(login_step("Suspend"));
        let mut lock = lock_steps();
        let ghost locked = lock.deep_view();
        r.append(&mut lock);
        proof {
            assert(r.deep_view() =~~= seq![login_spec("Suspend"@)] + locked);
        }
        r
    }

    /// The steps that lock the session.
    pub fn lock() -> (r: Vec<SessionStep>)
        ensures
            r.deep_view() == steps_spec(SystemOp::Lock),
    {
        lock_steps()
    }

    /// The steps that take or release the idle inhibitor: taking it keeps
    /// the process open to hold the lease; releasing it kills the holder.
    pub fn inhibit(operation: InhibitOp) -> (r: Vec<SessionStep>)
        ensures
            r.deep_view() == steps_spec(SystemOp::Inhibit { operation }),
    {
        let mut r: Vec<SessionStep> = Vec::new();
        match operation {
            InhibitOp::On => {
                r.push(
                    SessionStep::Inhibit {
                        what: "idle".to_owned(),
                        who: "emanager".to_owned(),
                        why: "Idle inhibitor".to_owned(),
                        mode: "block".to_owned(),
                    },
                );
                r.push(SessionStep::HoldOpen);
            },
            InhibitOp::Off => {
                let mut kill = ExtCommand::new("pkill");
                kill.arg("-f");
                kill.arg("emanager system inhibit on");
                r.push(SessionStep::Run(kill));
            },
        }
        proof {
            assert(r.deep_view() =~~= steps_spec(SystemOp::Inhibit { operation }));
        }
        r
    }

    /// Routes one session operation to its step sequence.
    pub fn handle(operation: SystemOp) -> (r: Vec<SessionStep>)
        ensures
            r.deep_view() == steps_spec(operation),
    {
        match operation {
            SystemOp::Poweroff => System::poweroff(),
            SystemOp::Reboot => System::reboot(),
            SystemOp::Suspend => System::suspend(),
            SystemOp::Lock => System::lock(),
            SystemOp::Inhibit { operation } => System::inhibit(operation),
        }
    }
}

} // verus!
