use vstd::prelude::*;
use vstd::string::*;
use crate::plan::{ExtCommand, ExtCommandV};
use crate::text;

verus! {

/// The session subsystem in its `systemctl` form: every operation becomes a
/// short sequence of external commands.
#[derive(Clone)]
pub struct System;

/// One session operation, as carried by a `power ...` command.
#[derive(Clone, Copy, PartialEq, Eq, Structural, Debug)]
pub enum SystemOp {
    /// Turn the machine off.
    Poweroff,
    /// Reboot the machine.
    Reboot,
    /// Suspend, locking the session on the way.
    Suspend,
    /// Lock the session.
    Lock,
}

// ---------------------------------------------------------------------------
// Operation text codec
// ---------------------------------------------------------------------------

/// The single word of an operation on the wire.
pub open spec fn op_word(op: SystemOp) -> Seq<char> {
    match op {
        SystemOp::Poweroff => "poweroff"@,
        SystemOp::Reboot => "reboot"@,
        SystemOp::Suspend => "suspend"@,
        SystemOp::Lock => "lock"@,
    }
}

/// What one word means as a session operation.
pub open spec fn parse_op_spec(w: Seq<char>) -> Option<SystemOp> {
    if w == "poweroff"@ {
        Some(SystemOp::Poweroff)
    } else if w == "reboot"@ {
        Some(SystemOp::Reboot)
    } else if w == "suspend"@ {
        Some(SystemOp::Suspend)
    } else if w == "lock"@ {
        Some(SystemOp::Lock)
    } else {
        None
    }
}

/// Reads one operation word.
pub fn parse_op(w: &str) -> (r: Option<SystemOp>)
    ensures
        r == parse_op_spec(w@),
{
    if text::str_eq(w, "poweroff") {
        Some(SystemOp::Poweroff)
    } else if text::str_eq(w, "reboot") {
        Some(SystemOp::Reboot)
    } else if text::str_eq(w, "suspend") {
        Some(SystemOp::Suspend)
    } else if text::str_eq(w, "lock") {
        Some(SystemOp::Lock)
    } else {
        None
    }
}

/// Writes the operation's wire word.
pub fn serialize_op(op: SystemOp) -> (r: String)
    ensures
        r@ == op_word(op),
{
    match op {
        SystemOp::Poweroff => "poweroff".to_owned(),
        SystemOp::Reboot => "reboot".to_owned(),
        SystemOp::Suspend => "suspend".to_owned(),
        SystemOp::Lock => "lock".to_owned(),
    }
}

/// Reading an operation's own word back returns the operation.
pub proof fn lemma_op_roundtrip(op: SystemOp)
    ensures
        parse_op_spec(op_word(op)) == Some(op),
{
    reveal_strlit("poweroff");
    reveal_strlit("reboot");
    reveal_strlit("suspend");
    reveal_strlit("lock");
    match op {
        SystemOp::Poweroff => {
        },
        SystemOp::Reboot => {
            text::lemma_seq_ne_len("reboot"@, "poweroff"@);
        },
        SystemOp::Suspend => {
            text::lemma_seq_ne_len("suspend"@, "poweroff"@);
            text::lemma_seq_ne_len("suspend"@, "reboot"@);
        },
        SystemOp::Lock => {
            text::lemma_seq_ne_len("lock"@, "poweroff"@);
            text::lemma_seq_ne_len("lock"@, "reboot"@);
            text::lemma_seq_ne_len("lock"@, "suspend"@);
        },
    }
}

/// The operation words are nonempty and free of spaces.
pub proof fn lemma_op_word_ok(op: SystemOp)
    ensures
        op_word(op).len() > 0,
        text::sep_free(op_word(op), ' '),
{
    reveal_strlit("poweroff");
    reveal_strlit("reboot");
    reveal_strlit("suspend");
    reveal_strlit("lock");
}

// ---------------------------------------------------------------------------
// Command plans
// ---------------------------------------------------------------------------

pub open spec fn systemctl_spec(word: Seq<char>) -> ExtCommandV {
    ExtCommandV { program: "systemctl"@, args: seq![word] }
}

/// The screen locker pair: stop a stale locker, start a fresh one.
pub open spec fn lock_spec() -> Seq<ExtCommandV> {
    seq![
        ExtCommandV { program: "pkill"@, args: seq!["swaylock"@] },
        ExtCommandV { program: "swaylock"@, args: seq!["-f"@] },
    ]
}

/// The command sequence one operation runs.
pub open spec fn steps_spec(op: SystemOp) -> Seq<ExtCommandV> {
    match op {
        SystemOp::Poweroff => seq![systemctl_spec("poweroff"@)],
        SystemOp::Reboot => seq![systemctl_spec("reboot"@)],
        SystemOp::Suspend => seq![systemctl_spec("suspend"@)] + lock_spec(),
        SystemOp::Lock => lock_spec(),
    }
}

fn systemctl(word: &str) -> (r: ExtCommand)
    ensures
        r@ == systemctl_spec(word@),
{
    let mut c = ExtCommand::new("systemctl");
    c.arg(word);
    proof {
        assert(c@ =~~= systemctl_spec(word@));
    }
    c
}

fn lock_commands() -> (r: Vec<ExtCommand>)
    ensures
        r.deep_view() == lock_spec(),
{
    let mut r: Vec<ExtCommand> = Vec::new();
    let mut kill = ExtCommand::new("pkill");
    kill.arg("swaylock");
    r.push(kill);
    let mut lock = ExtCommand::new("swaylock");
    lock.arg("-f");
    r.push(lock);
    proof {
        assert(r.deep_view() =~~= lock_spec());
    }
    r
}

impl System {
    pub fn new() -> (r: System) {
        System {  }
    }

    /// The commands that turn the machine off.
    pub fn poweroff(&self) -> (r: Vec<ExtCommand>)
        ensures
            r.deep_view() == steps_spec(SystemOp::Poweroff),
    {
        let mut r: Vec<ExtCommand> = Vec::new();
        r.push(systemctl("poweroff"));
        proof {
            assert(r.deep_view() =~~= steps_spec(SystemOp::Poweroff));
        }
        r
    }

    /// The commands that reboot the machine.
    pub fn reboot(&self) -> (r: Vec<ExtCommand>)
        ensures
            r.deep_view() == steps_spec(SystemOp::Reboot),
    {
        let mut r: Vec<ExtCommand> = Vec::new();
        r.push(systemctl("reboot"));
        proof {
            assert(r.deep_view() =~~= steps_spec(SystemOp::Reboot));
        }
        r
    }

    /// The commands that suspend the machine and lock the session behind it.
    pub fn suspend(&self) -> (r: Vec<ExtCommand>)
        ensures
            r.deep_view() == steps_spec(SystemOp::Suspend),
    {
        let mut r: Vec<ExtCommand> = Vec::new();
        r.push(systemctl("suspend"));
        let mut lock = lock_commands();
        let ghost locked = lock.deep_view();
        r.append(&mut lock);
        proof {
            assert(r.deep_view() =~~= seq![systemctl_spec("suspend"@)] + locked);
        }
        r
    }

    /// The commands that lock the session.
    pub fn lock(&self) -> (r: Vec<ExtCommand>)
        ensures
            r.deep_view() == steps_spec(SystemOp::Lock),
    {
        lock_commands()
    }

    /// Routes one session operation to its command sequence.
    pub fn handle(&self, operation: SystemOp) -> (r: Vec<ExtCommand>)
        ensures
            r.deep_view() == steps_spec(operation),
    {
        match operation {
            SystemOp::Poweroff => self.poweroff(),
            SystemOp::Reboot => self.reboot(),
            SystemOp::Suspend => self.suspend(),
            SystemOp::Lock => self.lock(),
        }
    }
}

} // verus!
