//! The top of the manager: log a user in, supervise their session, and
//! start over when it has ended.

use vstd::prelude::*;
use crate::askpass::UserInfo;
use crate::error::ErrorKind;

verus! {

/// Where the manager stands. Each stage but `Idle` waits for the outcome of
/// one action.
#[derive(Debug, Clone, Copy, PartialEq, Eq, Structural)]
pub enum ManagerStage {
    Idle,
    Switching,
    Authenticating,
    Supervising,
}

/// The manager of one seat.
#[derive(Debug)]
pub struct Manager {
    pub stage: ManagerStage,
    /// The virtual terminal of the login prompt and the display server.
    pub tty: u16,
    /// The session that is started after login.
    pub de: String,
}

/// What the manager asks its driver to do next.
#[derive(Debug)]
pub enum ManagerAction {
    /// Bring this console to the front. What comes of it is of no
    /// consequence.
    SwitchConsole { console: i32 },
    /// Run one attempt to log in on terminal `tty` to its end; answered by
    /// `Login`.
    Authenticate { tty: u32 },
    /// Run a session `de` for `user` to its end; answered by `Session`.
    Supervise { user: UserInfo, de: String },
}

/// What came of the action asked for last.
#[derive(Debug)]
pub enum ManagerEvent {
    Begin,
    Done,
    Failed,
    Login(Result<UserInfo, ErrorKind>),
    Session(Result<(), ErrorKind>),
}

/// One move of the manager.
#[derive(Debug)]
pub enum ManagerStep {
    Do(ManagerAction),
    /// The manager ends, as a failure of this kind.
    Stop(ErrorKind),
}

impl ManagerStep {
    pub open spec fn switches(self, tty: i32) -> bool {
        self matches ManagerStep::Do(ManagerAction::SwitchConsole { console }) && console == tty
    }

    pub open spec fn authenticates(self, tty: u32) -> bool {
        self matches ManagerStep::Do(ManagerAction::Authenticate { tty: t }) && t == tty
    }

    pub open spec fn supervises(self, user: UserInfo, de: Seq<char>) -> bool {
        self matches ManagerStep::Do(ManagerAction::Supervise { user: u, de: d }) && u == user
            && d@ == de
    }

    pub open spec fn stops(self, e: ErrorKind) -> bool {
        self matches ManagerStep::Stop(err) && err == e
    }
}

impl Manager {
    /// A manager for terminal `tty` that starts the session `de`.
    pub fn new(tty: u16, de: String) -> (r: Self)
        ensures
            r == (Manager { stage: ManagerStage::Idle, tty, de }),
    {
        Manager { stage: ManagerStage::Idle, tty, de }
    }

    /// The manager with only its stage changed.
    pub open spec fn at(self, stage: ManagerStage) -> Manager {
        Manager { stage, ..self }
    }

    /// The manager goes back to the login prompt.
    pub open spec fn starts_over(self, post: Manager, step: ManagerStep) -> bool {
        post == self.at(ManagerStage::Switching) && step.switches(self.tty as i32)
    }

    /// The manager asks for an attempt to log in.
    pub open spec fn prompts(self, post: Manager, step: ManagerStep) -> bool {
        post == self.at(ManagerStage::Authenticating) && step.authenticates(self.tty as u32)
    }

    /// What `start` does in each stage on each event: `post` and `step` are
    /// the manager and the answer that follow from `self` and `event`.
    ///
    /// The manager brings its console to the front and asks for an attempt
    /// to log in. An attempt that fails with `AuthenticationError` is
    /// followed by the next one, at once and without a count; one that fails
    /// otherwise stops the manager with that failure. The user who logged in
    /// gets a session. When the session is over, or the display server has
    /// failed, the manager starts over with the console; a session that
    /// fails otherwise stops the manager with that failure.
    pub open spec fn moves(self, event: ManagerEvent, post: Manager, step: ManagerStep) -> bool {
        if event is Begin {
            self.starts_over(post, step)
        } else {
            match self.stage {
                ManagerStage::Idle => self.starts_over(post, step),
                ManagerStage::Switching => self.prompts(post, step),
                ManagerStage::Authenticating => match event {
                    ManagerEvent::Login(Ok(user)) => post == self.at(ManagerStage::Supervising)
                        && step.supervises(user, self.de@),
                    ManagerEvent::Login(Err(e)) => if e.is_retryable() {
                        self.prompts(post, step)
                    } else {
                        post == self.at(ManagerStage::Idle) && step.stops(e)
                    },
                    _ => self.prompts(post, step),
                },
                ManagerStage::Supervising => match event {
                    ManagerEvent::Session(Err(e)) => if e.is_display_failure() {
                        self.starts_over(post, step)
                    } else {
                        post == self.at(ManagerStage::Idle) && step.stops(e)
                    },
                    _ => self.starts_over(post, step),
                },
            }
        }
    }

    fn start_over(&mut self) -> (step: ManagerStep)
        ensures
            old(self).starts_over(*final(self), step),
    {
        self.stage = ManagerStage::Switching;
        ManagerStep::Do(ManagerAction::SwitchConsole { console: self.tty as i32 })
    }

    fn prompt(&mut self) -> (step: ManagerStep)
        ensures
            old(self).prompts(*final(self), step),
    {
        self.stage = ManagerStage::Authenticating;
        ManagerStep::Do(ManagerAction::Authenticate { tty: self.tty as u32 })
    }

    fn stop(&mut self, e: ErrorKind) -> (step: ManagerStep)
        ensures
            *final(self) == old(self).at(ManagerStage::Idle),
            step.stops(e),
    {
        self.stage = ManagerStage::Idle;
        ManagerStep::Stop(e)
    }
}

/// Moves the manager one step on: takes the outcome of the action asked for
/// last and answers with the next action, or with the failure that stops
/// the manager.
pub fn start(manager: &mut Manager, event: ManagerEvent) -> (step: ManagerStep)
    ensures
        old(manager).moves(event, *final(manager), step),
{
    if let ManagerEvent::Begin = event {
        return manager.start_over();
    }
    match manager.stage {
        ManagerStage::Idle => manager.start_over(),
        ManagerStage::Switching => manager.prompt(),
        ManagerStage::Authenticating => match event {
            ManagerEvent::Login(Ok(user)) => {
                manager.stage = ManagerStage::Supervising;
                ManagerStep::Do(ManagerAction::Supervise { user, de: manager.de.clone() })
            },
            ManagerEvent::Login(Err(e)) => {
                if e.retryable() {
                    manager.prompt()
                } else {
                    manager.stop(e)
                }
            },
            _ => manager.prompt(),
        },
        ManagerStage::Supervising => match event {
            ManagerEvent::Session(Err(e)) => match e {
                ErrorKind::XError(_) => manager.start_over(),
                _ => manager.stop(e),
            },
            _ => manager.start_over(),
        },
    }
}

/// An attempt that is turned down is followed by the next attempt, and the
/// manager is as it was: so after any number of refusals the first success
/// still leads to a session for the user who logged in, and the manager has
/// not stopped in between.
pub proof fn lemma_refusal_then_success(
    waiting: Manager,
    refused: Manager,
    refusal: ManagerStep,
    user: UserInfo,
    admitted: Manager,
    admission: ManagerStep,
)
    requires
        waiting.stage == ManagerStage::Authenticating,
        waiting.moves(ManagerEvent::Login(Err(ErrorKind::AuthenticationError)), refused, refusal),
        refused.moves(ManagerEvent::Login(Ok(user)), admitted, admission),
    ensures
        refused == waiting,
        refusal.authenticates(waiting.tty as u32),
        admission.supervises(user, waiting.de@),
        admitted.stage == ManagerStage::Supervising,
{
}

/// The manager stops only on the failure that an attempt or a session
/// ended with, and never on a refusal or on a display server's failure.
pub proof fn lemma_stops_only_on_fatal(
    pre: Manager,
    event: ManagerEvent,
    post: Manager,
    step: ManagerStep,
    e: ErrorKind,
)
    requires
        pre.moves(event, post, step),
        step.stops(e),
    ensures
        pre.stage == ManagerStage::Authenticating || pre.stage == ManagerStage::Supervising,
        pre.stage == ManagerStage::Authenticating ==> !e.is_retryable() && event
            == ManagerEvent::Login(Err(e)),
        pre.stage == ManagerStage::Supervising ==> !e.is_display_failure() && event
            == ManagerEvent::Session(Err(e)),
{
}

/// The `i`-th move of a history of the manager.
pub open spec fn is_move(
    states: Seq<Manager>,
    events: Seq<ManagerEvent>,
    steps: Seq<ManagerStep>,
    i: int,
) -> bool {
    states[i].moves(events[i], states[i + 1], steps[i])
}

/// However many attempts in a row are turned down, the manager answers each
/// with the request for the next attempt and stays as it is: it keeps no
/// count, and it does not stop.
pub proof fn lemma_refusals_keep_prompting(
    states: Seq<Manager>,
    events: Seq<ManagerEvent>,
    steps: Seq<ManagerStep>,
    from: int,
    to: int,
)
    requires
        states.len() == steps.len() + 1,
        events.len() == steps.len(),
        0 <= from <= to <= steps.len(),
        states[from].stage == ManagerStage::Authenticating,
        forall|i: int| from <= i < to ==> #[trigger] is_move(states, events, steps, i),
        forall|i: int|
            from <= i < to ==> #[trigger] events[i] == ManagerEvent::Login(
                Err(ErrorKind::AuthenticationError),
            ),
    ensures
        states[to] == states[from],
        forall|i: int|
            from <= i < to ==> (#[trigger] steps[i]).authenticates(states[from].tty as u32),
    decreases to - from,
{
    if from < to {
        lemma_refusals_keep_prompting(states, events, steps, from, to - 1);
        assert(is_move(states, events, steps, to - 1));
        assert(events[to - 1] == ManagerEvent::Login(Err(ErrorKind::AuthenticationError)));
    }
}

} // verus!
