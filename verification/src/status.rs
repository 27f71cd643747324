//! The per-process status machine of a session's child process.

use vstd::prelude::*;

verus! {

/// Status of the child process currently associated with a session, if any.
///
/// `Starting` and `Running` are the live states; `WaitingInput` and `Paused`
/// are reserved for turn-taking and externally resumed sessions.  `Completed`
/// (stdout reached end of stream) and `Error` (stderr spoke while the process
/// was live) are terminal for one process instance; the session handle itself
/// survives and may acquire a fresh process on the next message.
#[derive(Debug, Clone, Copy, PartialEq, Eq, Structural)]
pub enum ProcessStatus {
    Starting,
    Running,
    WaitingInput,
    Paused,
    Completed,
    Error,
}

impl ProcessStatus {
    /// A session counts as active while its process may still take a turn.
    pub open spec fn spec_is_active(&self) -> bool {
        self is Starting || self is Running || self is WaitingInput
    }

    /// Whether stderr output while in this status promotes the process to
    /// `Error`: only a process that has not yet finished is so promoted.
    pub open spec fn spec_is_live(&self) -> bool {
        self is Starting || self is Running
    }

    #[verifier::when_used_as_spec(spec_is_active)]
    pub fn is_active(&self) -> (r: bool)
        ensures
            r == self.spec_is_active(),
    {
        match self {
            ProcessStatus::Starting => true,
            ProcessStatus::Running => true,
            ProcessStatus::WaitingInput => true,
            _ => false,
        }
    }

    #[verifier::when_used_as_spec(spec_is_live)]
    pub fn is_live(&self) -> (r: bool)
        ensures
            r == self.spec_is_live(),
    {
        match self {
            ProcessStatus::Starting => true,
            ProcessStatus::Running => true,
            _ => false,
        }
    }

    /// The wire label under which this status is published to listeners.
    pub open spec fn spec_label(&self) -> Seq<char> {
        match self {
            ProcessStatus::Starting => "starting"@,
            ProcessStatus::Running => "active"@,
            ProcessStatus::WaitingInput => "waiting_input"@,
            ProcessStatus::Paused => "paused"@,
            ProcessStatus::Completed => "completed"@,
            ProcessStatus::Error => "error"@,
        }
    }

    pub fn label(&self) -> (r: String)
        ensures
            r@ == self.spec_label(),
    {
        match self {
            ProcessStatus::Starting => String::from_str("starting"),
            ProcessStatus::Running => String::from_str("active"),
            ProcessStatus::WaitingInput => String::from_str("waiting_input"),
            ProcessStatus::Paused => String::from_str("paused"),
            ProcessStatus::Completed => String::from_str("completed"),
            ProcessStatus::Error => String::from_str("error"),
        }
    }
}

} // verus!
