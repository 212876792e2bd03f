//! Display-server backends and the protocol by which they are driven.
//!
//! A backend never touches the operating system itself. Each call of one of
//! its two phases takes the outcome of the action it asked for last and
//! answers with the next action, or with the phase's result.

use vstd::prelude::*;
use crate::displayservers::x::XError;

pub mod x;

verus! {

/// A failure of a display-server backend.
#[derive(Debug, Clone, Copy, PartialEq, Eq, Structural)]
pub enum DisplayServerError {
    XError(XError),
}

impl From<XError> for DisplayServerError {
    fn from(error: XError) -> (r: Self) {
        Self::XError(error)
    }
}

impl vstd::std_specs::convert::FromSpecImpl<XError> for DisplayServerError {
    open spec fn obeys_from_spec() -> bool {
        true
    }

    open spec fn from_spec(error: XError) -> Self {
        DisplayServerError::XError(error)
    }
}

/// A user as the system's user database describes them.
#[derive(Debug, Clone)]
pub struct Identity {
    pub username: String,
    pub uid: u32,
    pub gid: u32,
    pub home: String,
    /// The login shell; `None` where none could be resolved.
    pub shell: Option<String>,
}

/// What a backend asks its driver to do next.
#[derive(Debug, Clone)]
pub enum Action {
    /// Look which display lock files exist; answered by `Event::Locks`.
    ScanLocks,
    /// Set a variable of the process environment.
    SetEnv { name: String, value: String },
    /// Start a process and leave it running; answered by `Event::Started`.
    Spawn { program: String, args: Vec<String> },
    /// Send the null signal to a process.
    Probe { pid: u32 },
    /// Open a protocol connection to a display and keep it.
    Connect { display: String },
    /// Create a file, or empty it where it exists.
    CreateFile { path: String },
    /// Run a program to its end.
    Run { program: String, args: Vec<String> },
    /// Block until a process started earlier has ended.
    Wait { pid: u32 },
    /// Close the protocol connection.
    Disconnect,
}

/// What came of the action asked for last.
#[derive(Debug, Clone)]
pub enum Event {
    /// Nothing was asked for yet: the phase begins.
    Begin,
    /// The action was carried out.
    Done,
    /// The process was started, under this id.
    Started(u32),
    /// Entry `n` tells whether the lock file of display `n` exists.
    Locks(Vec<bool>),
    /// The probe found no process of that id.
    NoSuchProcess,
    /// The connection could not be made: nothing listens, or the stream
    /// broke.
    ConnectionRefused,
    /// The action failed, otherwise than the two above say.
    Failed,
}

/// One move of a backend.
#[derive(Debug)]
pub enum Step {
    Do(Action),
    Finished(Result<(), DisplayServerError>),
}

/// The texts that a vector of strings holds.
pub open spec fn texts(v: Seq<String>) -> Seq<Seq<char>> {
    Seq::new(v.len(), |i: int| v[i]@)
}

impl Step {
    /// The step sets the environment variable `name` to `value`.
    pub open spec fn sets_env(self, name: Seq<char>, value: Seq<char>) -> bool {
        self matches Step::Do(Action::SetEnv { name: n, value: v }) && n@ == name && v@ == value
    }

    /// The step starts `program` with exactly the arguments `args`.
    pub open spec fn spawns(self, program: Seq<char>, args: Seq<Seq<char>>) -> bool {
        self matches Step::Do(Action::Spawn { program: p, args: a }) && p@ == program && texts(a@)
            == args
    }

    /// The step runs `program` to its end with exactly the arguments `args`.
    pub open spec fn runs(self, program: Seq<char>, args: Seq<Seq<char>>) -> bool {
        self matches Step::Do(Action::Run { program: p, args: a }) && p@ == program && texts(a@)
            == args
    }

    /// The step creates or empties the file at `path`.
    pub open spec fn creates(self, path: Seq<char>) -> bool {
        self matches Step::Do(Action::CreateFile { path: p }) && p@ == path
    }

    /// The step connects to the display named `display`.
    pub open spec fn connects(self, display: Seq<char>) -> bool {
        self matches Step::Do(Action::Connect { display: d }) && d@ == display
    }

    /// The step probes the process `pid`.
    pub open spec fn probes(self, pid: u32) -> bool {
        self matches Step::Do(Action::Probe { pid: p }) && p == pid
    }

    /// The step waits for the process `pid`.
    pub open spec fn waits(self, pid: u32) -> bool {
        self matches Step::Do(Action::Wait { pid: p }) && p == pid
    }

    /// The step closes the protocol connection.
    pub open spec fn disconnects(self) -> bool {
        self matches Step::Do(Action::Disconnect)
    }

    /// The step asks for the table of lock files.
    pub open spec fn scans(self) -> bool {
        self matches Step::Do(Action::ScanLocks)
    }

    /// The step ends the phase with `result`.
    pub open spec fn finishes(self, result: Result<(), DisplayServerError>) -> bool {
        self matches Step::Finished(r) && r == result
    }
}

/// Puts `s` behind the strings of `v`.
pub fn push_text(v: &mut Vec<String>, s: String)
    ensures
        texts(final(v)@) == texts(old(v)@).push(s@),
{
    v.push(s);
    assert(texts(v@) =~= texts(old(v)@).push(s@));
}

/// The capability that the session supervisor drives: a phase that needs
/// root, and a phase that runs as the user.
pub trait DisplayServer {
    /// Allocates a display and brings the server up.
    fn pre_suid(&mut self, event: Event) -> Step;

    /// Provisions the user's authority and runs the session to its end.
    fn post_suid(&mut self, user_info: &Identity, de: &str, event: Event) -> Step;
}

} // verus!
