//! The privilege-separation supervisor: one session, from the display
//! server's start to the end of the worker that ran it.
//!
//! The supervisor decides; its driver forks, drops privileges and waits. The
//! process that asked for `Fork` goes on as two: each of them hands its own
//! outcome back, `Child` or `Parent`, to its own copy of the supervision.

use vstd::prelude::*;
use crate::askpass::UserInfo;
use crate::displayservers::{texts, push_text, DisplayServerError, Identity};
use crate::error::ErrorKind;

verus! {

/// Where a session stands. Each stage but `Idle` waits for the outcome of
/// one action.
#[derive(Debug, Clone, Copy, PartialEq, Eq, Structural)]
pub enum SessionStage {
    Idle,
    PreSuid,
    Forking,
    Resolving,
    Locale,
    Groups,
    Gid,
    Uid,
    Dir,
    PostSuid,
    Waiting,
}

/// One session under supervision.
#[derive(Debug)]
pub struct Supervision {
    pub stage: SessionStage,
    /// The user who logged in.
    pub username: String,
    /// The session to run.
    pub de: String,
    /// The user as the user database describes them, once the worker has
    /// looked them up.
    pub user: Option<Identity>,
}

/// What the supervisor asks its driver to do next.
#[derive(Debug)]
pub enum SessionAction {
    /// Run the display server's privileged phase to its end; answered by
    /// `Backend`.
    PreSuid,
    /// Fork; answered by `Child` in the worker and by `Parent` in the
    /// supervisor.
    Fork,
    /// Look the user up in the user database; answered by `User`.
    Lookup { username: String },
    /// Run a program to its end.
    Run { program: String, args: Vec<String> },
    /// Take on the user's supplementary groups.
    InitGroups { username: String, gid: u32 },
    /// Take on the user's primary group.
    SetGid { gid: u32 },
    /// Take on the user's id. There is no way back from here.
    SetUid { uid: u32 },
    /// Make `path` the working directory.
    ChangeDir { path: String },
    /// Run the display server's phase as the user to its end; answered by
    /// `Backend`.
    PostSuid { user: Identity, de: String },
    /// Block until the worker has exited or stopped.
    Wait { pid: i32 },
}

/// Why a worker gives up. It has no caller to return to: it must end.
#[derive(Debug, Clone, Copy, PartialEq, Eq, Structural)]
pub enum ChildFault {
    UnknownUser,
    Locale,
    InitGroups,
    SetGid,
    SetUid,
    ChangeDir,
    Display(DisplayServerError),
}

/// What came of the action asked for last.
#[derive(Debug)]
pub enum SessionEvent {
    Begin,
    Done,
    Backend(Result<(), DisplayServerError>),
    Child,
    Parent(i32),
    User(Identity),
    Failed,
}

/// One move of the supervisor.
#[derive(Debug)]
pub enum SessionStep {
    Do(SessionAction),
    /// The worker is done: the process exits with this status.
    Exit(i32),
    /// The worker cannot go on: the process ends as a failure.
    Abort(ChildFault),
    /// The supervisor is done with this session.
    Finished(Result<(), ErrorKind>),
}

impl SessionStep {
    pub open spec fn is_pre_suid(self) -> bool {
        self matches SessionStep::Do(SessionAction::PreSuid)
    }

    pub open spec fn is_fork(self) -> bool {
        self matches SessionStep::Do(SessionAction::Fork)
    }

    pub open spec fn looks_up(self, username: Seq<char>) -> bool {
        self matches SessionStep::Do(SessionAction::Lookup { username: u }) && u@ == username
    }

    pub open spec fn runs(self, program: Seq<char>, args: Seq<Seq<char>>) -> bool {
        self matches SessionStep::Do(SessionAction::Run { program: p, args: a }) && p@ == program
            && texts(a@) == args
    }

    pub open spec fn inits_groups(self, username: Seq<char>, gid: u32) -> bool {
        self matches SessionStep::Do(SessionAction::InitGroups { username: u, gid: g }) && u@
            == username && g == gid
    }

    pub open spec fn sets_gid(self, gid: u32) -> bool {
        self matches SessionStep::Do(SessionAction::SetGid { gid: g }) && g == gid
    }

    pub open spec fn sets_uid(self, uid: u32) -> bool {
        self matches SessionStep::Do(SessionAction::SetUid { uid: u }) && u == uid
    }

    pub open spec fn changes_dir(self, path: Seq<char>) -> bool {
        self matches SessionStep::Do(SessionAction::ChangeDir { path: p }) && p@ == path
    }

    pub open spec fn is_post_suid(self, user: Identity, de: Seq<char>) -> bool {
        self matches SessionStep::Do(SessionAction::PostSuid { user: u, de: d }) && u == user
            && d@ == de
    }

    pub open spec fn waits(self, pid: i32) -> bool {
        self matches SessionStep::Do(SessionAction::Wait { pid: p }) && p == pid
    }

    pub open spec fn exits(self, status: i32) -> bool {
        self matches SessionStep::Exit(s) && s == status
    }

    pub open spec fn aborts(self, fault: ChildFault) -> bool {
        self matches SessionStep::Abort(f) && f == fault
    }

    pub open spec fn finishes(self, result: Result<(), ErrorKind>) -> bool {
        self matches SessionStep::Finished(r) && r == result
    }

    /// The step is a change of user id, to whichever id.
    pub open spec fn is_set_uid(self) -> bool {
        self matches SessionStep::Do(SessionAction::SetUid { .. })
    }
}

/// The failure of a session whose display server failed with `e`.
pub open spec fn display_failure(e: DisplayServerError) -> ErrorKind {
    match e {
        DisplayServerError::XError(x) => ErrorKind::XError(x),
    }
}

/// The arguments with which the shell reads the locale settings.
pub open spec fn locale_args() -> Seq<Seq<char>> {
    seq!["-c"@, "/etc/locale.conf"@]
}

fn copy_of(user: &Identity) -> (r: Identity)
    ensures
        r == *user,
{
    Identity {
        username: user.username.clone(),
        uid: user.uid,
        gid: user.gid,
        home: user.home.clone(),
        shell: match &user.shell {
            Some(shell) => Some(shell.clone()),
            None => None,
        },
    }
}

impl Supervision {
    /// The supervision of a session `de` for the user who logged in. What is
    /// left of the secret is dropped here.
    pub fn new(user_info: UserInfo, de: String) -> (r: Self)
        ensures
            r == (Supervision {
                stage: SessionStage::Idle,
                username: user_info.username,
                de,
                user: None,
            }),
    {
        Supervision { stage: SessionStage::Idle, username: user_info.username, de, user: None }
    }

    /// The supervision with only its stage changed.
    pub open spec fn at(self, stage: SessionStage) -> Supervision {
        Supervision { stage, ..self }
    }

    /// The worker gives up with `fault`.
    pub open spec fn gives_up(self, fault: ChildFault, post: Supervision, step: SessionStep) -> bool {
        post == self.at(SessionStage::Idle) && step.aborts(fault)
    }

    /// What `start_displayserver` does in each stage on each event: `post`
    /// and `step` are the supervision and the answer that follow from `self`
    /// and `event`.
    ///
    /// `Event::Begin` starts a session with the display server's privileged
    /// phase. Where that fails the session is over, with the server's
    /// failure, and nothing else is asked for. Else the process forks. The
    /// worker looks the user up, reads the locale settings, takes on the
    /// user's groups, then their primary group, then their id, and moves to
    /// their home, each only after the one before has succeeded. Then it
    /// runs the display server's phase as the user and exits with status 0.
    /// A step of the worker that fails ends the worker. The supervisor waits
    /// for the worker and, whatever the wait gave, ends the session with
    /// success. A fork that fails ends it with `ForkFailed`.
    pub open spec fn moves(self, event: SessionEvent, post: Supervision, step: SessionStep) -> bool {
        let begins = post == (Supervision { stage: SessionStage::PreSuid, user: None, ..self })
            && step.is_pre_suid();
        if event is Begin {
            begins
        } else {
            match self.stage {
                SessionStage::Idle => begins,
                SessionStage::PreSuid => match event {
                    SessionEvent::Backend(Ok(_)) => post == self.at(SessionStage::Forking)
                        && step.is_fork(),
                    SessionEvent::Backend(Err(e)) => post == self.at(SessionStage::Idle)
                        && step.finishes(Err(display_failure(e))),
                    _ => post == self && step.is_pre_suid(),
                },
                SessionStage::Forking => match event {
                    SessionEvent::Child => post == self.at(SessionStage::Resolving)
                        && step.looks_up(self.username@),
                    SessionEvent::Parent(pid) => post == self.at(SessionStage::Waiting)
                        && step.waits(pid),
                    _ => post == self.at(SessionStage::Idle) && step.finishes(
                        Err(ErrorKind::ForkFailed),
                    ),
                },
                SessionStage::Resolving => match event {
                    SessionEvent::User(user) => {
                        &&& post == (Supervision {
                            stage: SessionStage::Locale,
                            user: Some(user),
                            ..self
                        })
                        &&& step.runs("bash"@, locale_args())
                    },
                    _ => self.gives_up(ChildFault::UnknownUser, post, step),
                },
                SessionStage::Locale => match (event, self.user) {
                    (SessionEvent::Done, Some(user)) => post == self.at(SessionStage::Groups)
                        && step.inits_groups(self.username@, user.gid),
                    (_, None) => self.gives_up(ChildFault::UnknownUser, post, step),
                    _ => self.gives_up(ChildFault::Locale, post, step),
                },
                SessionStage::Groups => match (event, self.user) {
                    (SessionEvent::Done, Some(user)) => post == self.at(SessionStage::Gid)
                        && step.sets_gid(user.gid),
                    (_, None) => self.gives_up(ChildFault::UnknownUser, post, step),
                    _ => self.gives_up(ChildFault::InitGroups, post, step),
                },
                SessionStage::Gid => match (event, self.user) {
                    (SessionEvent::Done, Some(user)) => post == self.at(SessionStage::Uid)
                        && step.sets_uid(user.uid),
                    (_, None) => self.gives_up(ChildFault::UnknownUser, post, step),
                    _ => self.gives_up(ChildFault::SetGid, post, step),
                },
                SessionStage::Uid => match (event, self.user) {
                    (SessionEvent::Done, Some(user)) => post == self.at(SessionStage::Dir)
                        && step.changes_dir(user.home@),
                    (_, None) => self.gives_up(ChildFault::UnknownUser, post, step),
                    _ => self.gives_up(ChildFault::SetUid, post, step),
                },
                SessionStage::Dir => match (event, self.user) {
                    (SessionEvent::Done, Some(user)) => post == self.at(SessionStage::PostSuid)
                        && step.is_post_suid(user, self.de@),
                    (_, None) => self.gives_up(ChildFault::UnknownUser, post, step),
                    _ => self.gives_up(ChildFault::ChangeDir, post, step),
                },
                SessionStage::PostSuid => match (event, self.user) {
                    (SessionEvent::Backend(Ok(_)), _) => post == self.at(SessionStage::Idle)
                        && step.exits(0),
                    (SessionEvent::Backend(Err(e)), _) => self.gives_up(
                        ChildFault::Display(e),
                        post,
                        step,
                    ),
                    (_, Some(user)) => post == self && step.is_post_suid(user, self.de@),
                    (_, None) => self.gives_up(ChildFault::UnknownUser, post, step),
                },
                SessionStage::Waiting => post == self.at(SessionStage::Idle) && step.finishes(
                    Ok(()),
                ),
            }
        }
    }

    fn begin(&mut self) -> (step: SessionStep)
        ensures
            *final(self) == (Supervision { stage: SessionStage::PreSuid, user: None, ..*old(self) }),
            step.is_pre_suid(),
    {
        self.stage = SessionStage::PreSuid;
        self.user = None;
        SessionStep::Do(SessionAction::PreSuid)
    }

    fn give_up(&mut self, fault: ChildFault) -> (step: SessionStep)
        ensures
            old(self).gives_up(fault, *final(self), step),
    {
        self.stage = SessionStage::Idle;
        SessionStep::Abort(fault)
    }

    fn finish(&mut self, result: Result<(), ErrorKind>) -> (step: SessionStep)
        ensures
            *final(self) == old(self).at(SessionStage::Idle),
            step.finishes(result),
    {
        self.stage = SessionStage::Idle;
        SessionStep::Finished(result)
    }

    /// The next step of a worker whose last one succeeded.
    fn drop_on(&mut self, user: &Identity) -> (step: SessionStep)
        requires
            old(self).user == Some(*user),
            old(self).stage is Locale || old(self).stage is Groups || old(self).stage is Gid
                || old(self).stage is Uid || old(self).stage is Dir,
        ensures
            old(self).moves(SessionEvent::Done, *final(self), step),
    {
        match self.stage {
            SessionStage::Locale => {
                self.stage = SessionStage::Groups;
                SessionStep::Do(
                    SessionAction::InitGroups { username: self.username.clone(), gid: user.gid },
                )
            },
            SessionStage::Groups => {
                self.stage = SessionStage::Gid;
                SessionStep::Do(SessionAction::SetGid { gid: user.gid })
            },
            SessionStage::Gid => {
                self.stage = SessionStage::Uid;
                SessionStep::Do(SessionAction::SetUid { uid: user.uid })
            },
            SessionStage::Uid => {
                self.stage = SessionStage::Dir;
                SessionStep::Do(SessionAction::ChangeDir { path: user.home.clone() })
            },
            _ => {
                self.stage = SessionStage::PostSuid;
                SessionStep::Do(
                    SessionAction::PostSuid { user: copy_of(user), de: self.de.clone() },
                )
            },
        }
    }

    /// What ends a worker whose step in `stage` failed.
    pub open spec fn fault_of(stage: SessionStage) -> ChildFault {
        match stage {
            SessionStage::Locale => ChildFault::Locale,
            SessionStage::Groups => ChildFault::InitGroups,
            SessionStage::Gid => ChildFault::SetGid,
            SessionStage::Uid => ChildFault::SetUid,
            SessionStage::Dir => ChildFault::ChangeDir,
            _ => ChildFault::UnknownUser,
        }
    }

    fn fault(stage: SessionStage) -> (r: ChildFault)
        ensures
            r == Self::fault_of(stage),
    {
        match stage {
            SessionStage::Locale => ChildFault::Locale,
            SessionStage::Groups => ChildFault::InitGroups,
            SessionStage::Gid => ChildFault::SetGid,
            SessionStage::Uid => ChildFault::SetUid,
            SessionStage::Dir => ChildFault::ChangeDir,
            _ => ChildFault::UnknownUser,
        }
    }
}

/// Moves the session one step on: takes the outcome of the action asked for
/// last and answers with the next action, or with the end of the worker, or
/// with the session's result.
pub fn start_displayserver(session: &mut Supervision, event: SessionEvent) -> (step: SessionStep)
    ensures
        old(session).moves(event, *final(session), step),
{
    if let SessionEvent::Begin = event {
        return session.begin();
    }
    match session.stage {
        SessionStage::Idle => session.begin(),
        SessionStage::PreSuid => match event {
            SessionEvent::Backend(Ok(_)) => {
                session.stage = SessionStage::Forking;
                SessionStep::Do(SessionAction::Fork)
            },
            SessionEvent::Backend(Err(e)) => {
                let failure = match e {
                    DisplayServerError::XError(x) => ErrorKind::XError(x),
                };
                session.finish(Err(failure))
            },
            _ => SessionStep::Do(SessionAction::PreSuid),
        },
        SessionStage::Forking => match event {
            SessionEvent::Child => {
                session.stage = SessionStage::Resolving;
                SessionStep::Do(SessionAction::Lookup { username: session.username.clone() })
            },
            SessionEvent::Parent(pid) => {
                session.stage = SessionStage::Waiting;
                SessionStep::Do(SessionAction::Wait { pid })
            },
            _ => session.finish(Err(ErrorKind::ForkFailed)),
        },
        SessionStage::Resolving => match event {
            SessionEvent::User(user) => {
                let mut args: Vec<String> = Vec::new();
                push_text(&mut args, "-c".to_owned());
                push_text(&mut args, "/etc/locale.conf".to_owned());
                assert(texts(args@) =~= locale_args());
                session.stage = SessionStage::Locale;
                session.user = Some(user);
                SessionStep::Do(SessionAction::Run { program: "bash".to_owned(), args })
            },
            _ => session.give_up(ChildFault::UnknownUser),
        },
        SessionStage::Waiting => session.finish(Ok(())),
        SessionStage::PostSuid => match event {
            SessionEvent::Backend(Ok(_)) => {
                session.stage = SessionStage::Idle;
                SessionStep::Exit(0)
            },
            SessionEvent::Backend(Err(e)) => session.give_up(ChildFault::Display(e)),
            _ => match &session.user {
                Some(user) => SessionStep::Do(
                    SessionAction::PostSuid { user: copy_of(user), de: session.de.clone() },
                ),
                None => session.give_up(ChildFault::UnknownUser),
            },
        },
        stage => {
            let user = match &session.user {
                Some(user) => copy_of(user),
                None => {
                    return session.give_up(ChildFault::UnknownUser);
                },
            };
            match event {
                SessionEvent::Done => session.drop_on(&user),
                _ => session.give_up(Supervision::fault(stage)),
            }
        },
    }
}

/// The `i`-th move of a history: from `states[i]`, on `events[i]`, the
/// supervisor answered `steps[i]` and went on as `states[i + 1]`.
pub open spec fn is_move(
    states: Seq<Supervision>,
    events: Seq<SessionEvent>,
    steps: Seq<SessionStep>,
    i: int,
) -> bool {
    states[i].moves(events[i], states[i + 1], steps[i])
}

/// A history of one process under `start_displayserver`, from a supervision
/// that has not begun.
pub open spec fn is_history(
    states: Seq<Supervision>,
    events: Seq<SessionEvent>,
    steps: Seq<SessionStep>,
) -> bool {
    &&& states.len() == steps.len() + 1
    &&& events.len() == steps.len()
    &&& states[0].stage == SessionStage::Idle
    &&& forall|i: int| 0 <= i < steps.len() ==> #[trigger] is_move(states, events, steps, i)
}

/// In every history, a change of user id comes directly after the change of
/// the primary group, and that directly after the supplementary groups were
/// taken on; both had succeeded, and all three are those of one user.
pub proof fn lemma_privilege_drop_order(
    states: Seq<Supervision>,
    events: Seq<SessionEvent>,
    steps: Seq<SessionStep>,
    k: int,
)
    requires
        is_history(states, events, steps),
        0 <= k < steps.len(),
        steps[k].is_set_uid(),
    ensures
        k >= 2,
        events[k - 1] is Done,
        events[k] is Done,
        exists|user: Identity|
            {
                &&& #[trigger] steps[k - 2].inits_groups(states[k].username@, user.gid)
                &&& steps[k - 1].sets_gid(user.gid)
                &&& steps[k].sets_uid(user.uid)
            },
{
    assert(is_move(states, events, steps, k));
    assert(states[k].stage == SessionStage::Gid);
    assert(k >= 1);
    assert(is_move(states, events, steps, k - 1));
    assert(states[k - 1].stage == SessionStage::Groups);
    assert(k >= 2);
    assert(is_move(states, events, steps, k - 2));
    assert(states[k - 2].stage == SessionStage::Locale);
    let user = states[k].user->0;
    assert(steps[k - 2].inits_groups(states[k].username@, user.gid));
}

/// In every history, a change of user id has the whole privileged work
/// behind it: five moves earlier the display server's privileged phase had
/// succeeded and the process forked, and the moves between are the worker's.
pub proof fn lemma_display_before_privilege_drop(
    states: Seq<Supervision>,
    events: Seq<SessionEvent>,
    steps: Seq<SessionStep>,
    k: int,
)
    requires
        is_history(states, events, steps),
        0 <= k < steps.len(),
        steps[k].is_set_uid(),
    ensures
        k >= 6,
        steps[k - 6].is_pre_suid(),
        events[k - 5] matches SessionEvent::Backend(Ok(_)),
        steps[k - 5].is_fork(),
        events[k - 4] is Child,
{
    lemma_privilege_drop_order(states, events, steps, k);
    assert(is_move(states, events, steps, k - 2));
    assert(states[k - 2].stage == SessionStage::Locale);
    assert(k >= 3);
    assert(is_move(states, events, steps, k - 3));
    assert(states[k - 3].stage == SessionStage::Resolving);
    assert(k >= 4);
    assert(is_move(states, events, steps, k - 4));
    assert(states[k - 4].stage == SessionStage::Forking);
    assert(k >= 5);
    assert(is_move(states, events, steps, k - 5));
    assert(states[k - 5].stage == SessionStage::PreSuid);
    assert(k >= 6);
    assert(is_move(states, events, steps, k - 6));
}

/// A display server whose privileged phase fails ends the session at once,
/// with its failure: the answer is neither a fork nor a change of user id,
/// and the supervision is idle again.
pub proof fn lemma_failed_display_ends_session(
    pre: Supervision,
    e: DisplayServerError,
    post: Supervision,
    step: SessionStep,
)
    requires
        pre.stage == SessionStage::PreSuid,
        pre.moves(SessionEvent::Backend(Err(e)), post, step),
    ensures
        step.finishes(Err(display_failure(e))),
        !step.is_fork(),
        !step.is_set_uid(),
        post.stage == SessionStage::Idle,
{
}

/// In every history, the display server's phase as the user is asked for
/// only after the user id was taken on: whatever that phase does, the
/// authority file and the session among it, is done without privileges.
pub proof fn lemma_session_runs_unprivileged(
    states: Seq<Supervision>,
    events: Seq<SessionEvent>,
    steps: Seq<SessionStep>,
    k: int,
)
    requires
        is_history(states, events, steps),
        0 <= k < steps.len(),
        steps[k] matches SessionStep::Do(SessionAction::PostSuid { .. }),
    ensures
        exists|j: int| 0 <= j < k && #[trigger] steps[j].is_set_uid() && events[j + 1] is Done,
    decreases k,
{
    assert(is_move(states, events, steps, k));
    assert(k >= 1);
    assert(is_move(states, events, steps, k - 1));
    if states[k].stage == SessionStage::PostSuid {
        lemma_session_runs_unprivileged(states, events, steps, k - 1);
    } else {
        assert(states[k].stage == SessionStage::Dir);
        assert(states[k - 1].stage == SessionStage::Uid);
        assert(k >= 2);
        assert(is_move(states, events, steps, k - 2));
        assert(steps[k - 2].is_set_uid() && events[k - 2 + 1] is Done);
    }
}

/// The process that the fork left as the supervisor asks for nothing but the
/// wait for its worker, and ends the session with success whatever the wait
/// gave: it takes no part in what the worker does.
pub proof fn lemma_supervisor_only_waits(
    forking: Supervision,
    pid: i32,
    waiting: Supervision,
    wait: SessionStep,
    event: SessionEvent,
    post: Supervision,
    step: SessionStep,
)
    requires
        forking.stage == SessionStage::Forking,
        forking.moves(SessionEvent::Parent(pid), waiting, wait),
        !(event is Begin),
        waiting.moves(event, post, step),
    ensures
        wait.waits(pid),
        step.finishes(Ok(())),
        post.stage == SessionStage::Idle,
{
}

/// After a change of user id, and until a new session begins, the worker
/// is past every step that needs privileges.
proof fn lemma_worker_stays_down(
    states: Seq<Supervision>,
    events: Seq<SessionEvent>,
    steps: Seq<SessionStep>,
    j: int,
    i: int,
)
    requires
        is_history(states, events, steps),
        0 <= j < i <= steps.len(),
        steps[j].is_set_uid(),
        forall|m: int| j < m < i ==> !(#[trigger] steps[m]).is_pre_suid(),
    ensures
        states[i].stage == SessionStage::Uid || states[i].stage == SessionStage::Dir
            || states[i].stage == SessionStage::PostSuid || states[i].stage == SessionStage::Idle,
    decreases i - j,
{
    if i == j + 1 {
        assert(is_move(states, events, steps, j));
    } else {
        lemma_worker_stays_down(states, events, steps, j, i - 1);
        assert(is_move(states, events, steps, i - 1));
        assert(!steps[i - 1].is_pre_suid());
    }
}

/// In every history, privileges are dropped once per session: between two
/// changes of user id a new session has begun with the display server's
/// privileged phase.
pub proof fn lemma_privilege_dropped_once(
    states: Seq<Supervision>,
    events: Seq<SessionEvent>,
    steps: Seq<SessionStep>,
    j: int,
    k: int,
)
    requires
        is_history(states, events, steps),
        0 <= j < k < steps.len(),
        steps[j].is_set_uid(),
        steps[k].is_set_uid(),
    ensures
        exists|m: int| j < m < k && (#[trigger] steps[m]).is_pre_suid(),
{
    if !exists|m: int| j < m < k && (#[trigger] steps[m]).is_pre_suid() {
        lemma_worker_stays_down(states, events, steps, j, k);
        assert(is_move(states, events, steps, k));
    }
}

} // verus!
