use vstd::prelude::*;

verus! {

/// The failure taxonomy of the daemon.
///
/// `Parse` is a malformed command text, rejected per request.
/// `AlreadyRunning` aborts a daemon launch when an instance is alive.
/// `NotRunning` is the converse: a client command with no daemon to take it.
/// `ExternalTool` is a nonzero exit or unexpected output from an effector
/// or query utility.
/// `Transport` is a socket accept, read or write failure.
/// `NotFound` means a queried domain has no persisted record yet.
#[derive(Clone, Copy, PartialEq, Eq, Structural, Debug)]
pub enum Error {
    Parse,
    AlreadyRunning,
    NotRunning,
    ExternalTool,
    Transport,
    NotFound,
}

impl Error {
    /// The text a command-line invocation prints to standard error.
    pub fn message(&self) -> (r: String)
        ensures
            *self is Parse ==> r@ == "Unknown command"@,
            *self is AlreadyRunning ==> r@ == "Manager is already running"@,
            *self is NotRunning ==> r@ == "Manager is not running"@,
            *self is ExternalTool ==> r@ == "External tool failed"@,
            *self is Transport ==> r@ == "Transport failure"@,
            *self is NotFound ==> r@ == "State not found"@,
    {
        match self {
            Error::Parse => "Unknown command".to_owned(),
            Error::AlreadyRunning => "Manager is already running".to_owned(),
            Error::NotRunning => "Manager is not running".to_owned(),
            Error::ExternalTool => "External tool failed".to_owned(),
            Error::Transport => "Transport failure".to_owned(),
            Error::NotFound => "State not found".to_owned(),
        }
    }
}

} // verus!
