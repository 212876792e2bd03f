//! Authentication: one attempt to log a user in.
//!
//! Nothing here prompts anybody or asks an authentication service. It
//! says what is to be done next and takes back what came of it.

use vstd::prelude::*;
use crate::askpass::UserInfo;
use crate::displayservers::Identity;
use crate::error::ErrorKind;
use crate::text::{decimal, push_decimal};

verus! {

/// Why the authentication service turned an attempt down.
#[derive(Debug, Clone, Copy, PartialEq, Eq, Structural)]
pub enum AuthCode {
    PermDenied,
    AuthErr,
    UserUnknown,
    MaxTries,
    CredUnavail,
    AcctExpired,
    CredExpired,
    TryAgain,
    Abort,
    Incomplete,
    Other,
}

impl AuthCode {
    /// What the log says of a refusal with this code.
    pub open spec fn diagnostic_text(self) -> Seq<char> {
        match self {
            AuthCode::PermDenied => "Permission denied."@,
            AuthCode::AuthErr => "AUTH_ERR"@,
            AuthCode::UserUnknown => "USER_UNKNOWN"@,
            AuthCode::MaxTries => "Maximum login attempts reached."@,
            AuthCode::CredUnavail => "The authentication service can not retrieve the user's credentials."@,
            AuthCode::AcctExpired => "Account expired"@,
            AuthCode::CredExpired => "Credentials expired"@,
            AuthCode::TryAgain => "The authentication service failed, please try again"@,
            AuthCode::Abort => "The authentication was aborted"@,
            AuthCode::Incomplete => "The authentication is incomplete, please try again"@,
            AuthCode::Other => "An authentication error occurred"@,
        }
    }

    /// Whether the user is told of the refusal. They are told that
    /// authentication failed, never which part of it: a wrong secret and an
    /// unknown name look the same.
    pub open spec fn is_shown_to_user(self) -> bool {
        self == AuthCode::AuthErr || self == AuthCode::UserUnknown
    }

    /// What the log says of a refusal with this code.
    pub fn diagnostic(self) -> (r: &'static str)
        ensures
            r@ == self.diagnostic_text(),
    {
        match self {
            AuthCode::PermDenied => "Permission denied.",
            AuthCode::AuthErr => "AUTH_ERR",
            AuthCode::UserUnknown => "USER_UNKNOWN",
            AuthCode::MaxTries => "Maximum login attempts reached.",
            AuthCode::CredUnavail => "The authentication service can not retrieve the user's credentials.",
            AuthCode::AcctExpired => "Account expired",
            AuthCode::CredExpired => "Credentials expired",
            AuthCode::TryAgain => "The authentication service failed, please try again",
            AuthCode::Abort => "The authentication was aborted",
            AuthCode::Incomplete => "The authentication is incomplete, please try again",
            AuthCode::Other => "An authentication error occurred",
        }
    }

    /// The code that the authentication service's report names. A report is
    /// the code's name, a space, and the code's number in brackets; one that
    /// names none of the codes told apart here is `Other`.
    pub open spec fn of_report(report: Seq<char>) -> AuthCode {
        if report == "PERM_DENIED (6)"@ {
            AuthCode::PermDenied
        } else if report == "AUTH_ERR (7)"@ {
            AuthCode::AuthErr
        } else if report == "USER_UNKNOWN (10)"@ {
            AuthCode::UserUnknown
        } else if report == "MAXTRIES (11)"@ {
            AuthCode::MaxTries
        } else if report == "CRED_UNAVAIL (15)"@ {
            AuthCode::CredUnavail
        } else if report == "ACCT_EXPIRED (13)"@ {
            AuthCode::AcctExpired
        } else if report == "CRED_EXPIRED (16)"@ {
            AuthCode::CredExpired
        } else if report == "TRY_AGAIN (24)"@ {
            AuthCode::TryAgain
        } else if report == "ABORT (26)"@ {
            AuthCode::Abort
        } else if report == "INCOMPLETE (31)"@ {
            AuthCode::Incomplete
        } else {
            AuthCode::Other
        }
    }

    /// The code that the authentication service's report names.
    pub fn from_report(report: &str) -> (r: AuthCode)
        ensures
            r == Self::of_report(report@),
    {
        if same_text(report, "PERM_DENIED (6)") {
            AuthCode::PermDenied
        } else if same_text(report, "AUTH_ERR (7)") {
            AuthCode::AuthErr
        } else if same_text(report, "USER_UNKNOWN (10)") {
            AuthCode::UserUnknown
        } else if same_text(report, "MAXTRIES (11)") {
            AuthCode::MaxTries
        } else if same_text(report, "CRED_UNAVAIL (15)") {
            AuthCode::CredUnavail
        } else if same_text(report, "ACCT_EXPIRED (13)") {
            AuthCode::AcctExpired
        } else if same_text(report, "CRED_EXPIRED (16)") {
            AuthCode::CredExpired
        } else if same_text(report, "TRY_AGAIN (24)") {
            AuthCode::TryAgain
        } else if same_text(report, "ABORT (26)") {
            AuthCode::Abort
        } else if same_text(report, "INCOMPLETE (31)") {
            AuthCode::Incomplete
        } else {
            AuthCode::Other
        }
    }

    /// Whether the user is told of the refusal.
    pub fn shown_to_user(self) -> (r: bool)
        ensures
            r == self.is_shown_to_user(),
    {
        match self {
            AuthCode::AuthErr | AuthCode::UserUnknown => true,
            _ => false,
        }
    }
}

fn same_text(a: &str, b: &str) -> (r: bool)
    ensures
        r == (a@ == b@),
{
    a.to_owned() == b.to_owned()
}

/// The message shown to a user whose attempt was turned down.
pub fn denial_message() -> (r: &'static str)
    ensures
        r@ == "Authentication error."@,
{
    "Authentication error."
}

/// One variable to set in the process environment.
#[derive(Debug)]
pub struct EnvWrite {
    pub name: String,
    pub value: String,
    /// Where the variable is set already, it keeps its value.
    pub keep_existing: bool,
}

/// The writes of a plan as plain values: name, value, and whether a value
/// that is there already stays.
pub open spec fn writes(plan: Seq<EnvWrite>) -> Seq<(Seq<char>, Seq<char>, bool)> {
    Seq::new(plan.len(), |i: int| (plan[i].name@, plan[i].value@, plan[i].keep_existing))
}

/// The session context of a login on terminal `tty` in session class
/// `class`, in the order in which it is written.
pub open spec fn xdg_plan(tty: u32, class: Seq<char>) -> Seq<(Seq<char>, Seq<char>, bool)> {
    seq![
        ("XDG_SESSION_CLASS"@, class, false),
        ("XDG_SEAT"@, "seat0"@, false),
        ("XDG_VTNR"@, decimal(tty as nat), false),
        ("XDG_SESSION_ID"@, "1"@, false),
        ("XDG_DATA_DIRS"@, "/usr/local/share/:/usr/share/"@, true),
        ("XDG_SESSION_TYPE"@, "tty"@, false),
    ]
}

fn push_write(plan: &mut Vec<EnvWrite>, name: &str, value: String, keep_existing: bool)
    ensures
        writes(final(plan)@) == writes(old(plan)@).push((name@, value@, keep_existing)),
{
    plan.push(EnvWrite { name: name.to_owned(), value, keep_existing });
    assert(writes(plan@) =~= writes(old(plan)@).push((name@, value@, keep_existing)));
}

/// The session context that the authentication service and the session are
/// to see: the variables to set, in order. The user id takes no part in it.
pub fn xdg(tty: u32, _uid: u32, xdg_session_class: &str) -> (plan: Vec<EnvWrite>)
    ensures
        writes(plan@) == xdg_plan(tty, xdg_session_class@),
{
    let mut plan: Vec<EnvWrite> = Vec::new();
    let mut terminal = String::new();
    push_decimal(&mut terminal, tty as u64);
    assert(terminal@ =~= decimal(tty as nat));
    assert(writes(plan@) =~= Seq::empty());
    push_write(&mut plan, "XDG_SESSION_CLASS", xdg_session_class.to_owned(), false);
    push_write(&mut plan, "XDG_SEAT", "seat0".to_owned(), false);
    push_write(&mut plan, "XDG_VTNR", terminal, false);
    push_write(&mut plan, "XDG_SESSION_ID", "1".to_owned(), false);
    push_write(&mut plan, "XDG_DATA_DIRS", "/usr/local/share/:/usr/share/".to_owned(), true);
    push_write(&mut plan, "XDG_SESSION_TYPE", "tty".to_owned(), false);
    assert(writes(plan@) =~= xdg_plan(tty, xdg_session_class@));
    plan
}

/// What the greeter needs before anybody has logged in.
#[derive(Debug)]
pub struct Greeter {
    /// The name under which the authentication service is asked.
    pub service: String,
    /// The session context to write before a session is opened with it.
    pub environment: Vec<EnvWrite>,
}

/// The greeter's own session on terminal `tty`: the service `login`, in the
/// session class `greeter`.
pub fn initial_pam(tty: u32) -> (r: Greeter)
    ensures
        r.service@ == "login"@,
        writes(r.environment@) == xdg_plan(tty, "greeter"@),
{
    Greeter { service: "login".to_owned(), environment: xdg(tty, 0, "greeter") }
}

/// Where an attempt stands. Each stage but `Idle` waits for the outcome of
/// one action.
#[derive(Debug, Clone, Copy, PartialEq, Eq, Structural)]
pub enum LoginStage {
    Idle,
    Inhibiting,
    Prompting,
    Resolving,
    Exporting,
    Validating,
    Reporting,
    Opening,
}

/// One attempt to log in. The secret is held from the prompt's answer until
/// it is handed to the authentication service, and no longer.
#[derive(Debug)]
pub struct Login {
    pub stage: LoginStage,
    pub username: String,
    pub secret: Option<String>,
}

/// What an attempt asks its driver to do next.
#[derive(Debug)]
pub enum LoginAction {
    /// Keep the machine from suspending until the attempt has finished.
    Inhibit,
    /// Ask for a user name and a secret; answered by `Credentials`.
    Prompt,
    /// Look the user up in the user database; answered by `User`.
    Lookup { username: String },
    /// Write the session context to the process environment.
    Environment(Vec<EnvWrite>),
    /// Hand name and secret to the authentication service and let it judge;
    /// a refusal is answered by `Denied`.
    Validate { username: String, password: String },
    /// Report a refusal.
    Report(AuthCode),
    /// Open a session with the authentication service.
    OpenSession,
}

/// What came of the action asked for last.
#[derive(Debug)]
pub enum LoginEvent {
    Begin,
    Done,
    Credentials(UserInfo),
    User(Identity),
    Denied(AuthCode),
    Failed,
}

/// One move of an attempt.
#[derive(Debug)]
pub enum LoginStep {
    Do(LoginAction),
    Finished(Result<UserInfo, ErrorKind>),
}

/// The text of a secret, empty where there is none.
pub open spec fn secret_text(secret: Option<String>) -> Seq<char> {
    match secret {
        Some(s) => s@,
        None => Seq::empty(),
    }
}

impl LoginStep {
    /// The step ends the attempt with the failure `e`.
    pub open spec fn fails(self, e: ErrorKind) -> bool {
        self matches LoginStep::Finished(Err(err)) && err == e
    }

    /// The step ends the attempt with success for `username`, and hands no
    /// secret on.
    pub open spec fn admits(self, username: Seq<char>) -> bool {
        self matches LoginStep::Finished(Ok(info)) && info.username@ == username
            && info.password@ == Seq::<char>::empty()
    }

    /// The step asks for exactly the action `Inhibit`, `Prompt` or
    /// `OpenSession` that `action` is.
    pub open spec fn asks(self, action: LoginAction) -> bool {
        match (self, action) {
            (LoginStep::Do(LoginAction::Inhibit), LoginAction::Inhibit) => true,
            (LoginStep::Do(LoginAction::Prompt), LoginAction::Prompt) => true,
            (LoginStep::Do(LoginAction::OpenSession), LoginAction::OpenSession) => true,
            _ => false,
        }
    }

    /// The step looks `username` up.
    pub open spec fn looks_up(self, username: Seq<char>) -> bool {
        self matches LoginStep::Do(LoginAction::Lookup { username: u }) && u@ == username
    }

    /// The step writes the session context `plan`.
    pub open spec fn exports(self, plan: Seq<(Seq<char>, Seq<char>, bool)>) -> bool {
        self matches LoginStep::Do(LoginAction::Environment(p)) && writes(p@) == plan
    }

    /// The step hands `username` and `password` to the authentication
    /// service.
    pub open spec fn validates(self, username: Seq<char>, password: Seq<char>) -> bool {
        self matches LoginStep::Do(LoginAction::Validate { username: u, password: p }) && u@
            == username && p@ == password
    }

    /// The step reports a refusal with `code`.
    pub open spec fn reports(self, code: AuthCode) -> bool {
        self matches LoginStep::Do(LoginAction::Report(c)) && c == code
    }
}

impl Login {
    /// An attempt that has not begun.
    pub fn new() -> (r: Self)
        ensures
            r.is_idle(),
    {
        Login { stage: LoginStage::Idle, username: String::new(), secret: None }
    }

    /// The attempt is in `stage` for `username`, and holds no secret.
    pub open spec fn is_at(self, stage: LoginStage, username: Seq<char>) -> bool {
        self.stage == stage && self.username@ == username && self.secret is None
    }

    /// No attempt is under way: no name and no secret are held.
    pub open spec fn is_idle(self) -> bool {
        self.is_at(LoginStage::Idle, Seq::empty())
    }

    /// The attempt is in `stage`, with the name and the secret that `before`
    /// held.
    pub open spec fn carries(self, stage: LoginStage, before: Login) -> bool {
        self.stage == stage && self.username == before.username && self.secret == before.secret
    }

    /// What `authenticate` does in each stage on each event: `post` and
    /// `step` are the attempt and the answer that follow from `self`, the
    /// terminal `tty` and `event`.
    ///
    /// `Event::Begin` starts an attempt. Suspension is inhibited, the user
    /// prompted and looked up, the session context of class `user` written,
    /// the credentials judged and a session opened, in this order. A user
    /// that is not known and a refusal, whatever its code, end the attempt
    /// with `AuthenticationError`; the refusal is reported first. The other
    /// failures end it with the kind of the action that failed. However the
    /// attempt ends, nothing of it is held afterwards.
    pub open spec fn moves(self, tty: u32, event: LoginEvent, post: Login, step: LoginStep) -> bool {
        let begins = post.is_at(LoginStage::Inhibiting, Seq::empty()) && step.asks(
            LoginAction::Inhibit,
        );
        if event is Begin {
            begins
        } else {
            match self.stage {
                LoginStage::Idle => begins,
                LoginStage::Inhibiting => match event {
                    LoginEvent::Done => post.is_at(LoginStage::Prompting, Seq::empty())
                        && step.asks(LoginAction::Prompt),
                    _ => post.is_idle() && step.fails(ErrorKind::InhibitationError),
                },
                LoginStage::Prompting => match event {
                    LoginEvent::Credentials(info) => {
                        &&& post.stage == LoginStage::Resolving
                        &&& post.username == info.username
                        &&& post.secret == Some(info.password)
                        &&& step.looks_up(info.username@)
                    },
                    _ => post.is_idle() && step.fails(ErrorKind::IoError),
                },
                LoginStage::Resolving => match event {
                    LoginEvent::User(_) => post.carries(LoginStage::Exporting, self)
                        && step.exports(xdg_plan(tty, "user"@)),
                    _ => post.is_idle() && step.fails(ErrorKind::AuthenticationError),
                },
                LoginStage::Exporting => {
                    &&& post.is_at(LoginStage::Validating, self.username@)
                    &&& step.validates(self.username@, secret_text(self.secret))
                },
                LoginStage::Validating => match event {
                    LoginEvent::Done => post.is_at(LoginStage::Opening, self.username@)
                        && step.asks(LoginAction::OpenSession),
                    LoginEvent::Denied(code) => post.is_at(LoginStage::Reporting, Seq::empty())
                        && step.reports(code),
                    _ => post.is_idle() && step.fails(ErrorKind::AuthenticationError),
                },
                LoginStage::Reporting => post.is_idle() && step.fails(
                    ErrorKind::AuthenticationError,
                ),
                LoginStage::Opening => match event {
                    LoginEvent::Done => post.is_idle() && step.admits(self.username@),
                    _ => post.is_idle() && step.fails(ErrorKind::SessionError),
                },
            }
        }
    }

    fn begin(&mut self) -> (step: LoginStep)
        ensures
            final(self).is_at(LoginStage::Inhibiting, Seq::empty()),
            step.asks(LoginAction::Inhibit),
    {
        self.stage = LoginStage::Inhibiting;
        self.username = String::new();
        self.secret = None;
        LoginStep::Do(LoginAction::Inhibit)
    }

    fn fail(&mut self, e: ErrorKind) -> (step: LoginStep)
        ensures
            final(self).is_idle(),
            step.fails(e),
    {
        self.stage = LoginStage::Idle;
        self.username = String::new();
        self.secret = None;
        LoginStep::Finished(Err(e))
    }
}

/// Moves the attempt `login` on terminal `tty` one step on: takes the
/// outcome of the action asked for last and answers with the next action,
/// or with the user who is logged in, or with the failure.
pub fn authenticate(login: &mut Login, tty: u32, event: LoginEvent) -> (step: LoginStep)
    ensures
        old(login).moves(tty, event, *final(login), step),
{
    if let LoginEvent::Begin = event {
        return login.begin();
    }
    match login.stage {
        LoginStage::Idle => login.begin(),
        LoginStage::Inhibiting => match event {
            LoginEvent::Done => {
                login.stage = LoginStage::Prompting;
                login.username = String::new();
                login.secret = None;
                LoginStep::Do(LoginAction::Prompt)
            },
            _ => login.fail(ErrorKind::InhibitationError),
        },
        LoginStage::Prompting => match event {
            LoginEvent::Credentials(info) => {
                let UserInfo { username, password } = info;
                let step = LoginStep::Do(LoginAction::Lookup { username: username.clone() });
                login.stage = LoginStage::Resolving;
                login.username = username;
                login.secret = Some(password);
                step
            },
            _ => login.fail(ErrorKind::IoError),
        },
        LoginStage::Resolving => match event {
            LoginEvent::User(identity) => {
                login.stage = LoginStage::Exporting;
                LoginStep::Do(LoginAction::Environment(xdg(tty, identity.uid, "user")))
            },
            _ => login.fail(ErrorKind::AuthenticationError),
        },
        LoginStage::Exporting => {
            let password = match login.secret.take() {
                Some(secret) => secret,
                None => String::new(),
            };
            login.stage = LoginStage::Validating;
            LoginStep::Do(LoginAction::Validate { username: login.username.clone(), password })
        },
        LoginStage::Validating => match event {
            LoginEvent::Done => {
                login.stage = LoginStage::Opening;
                login.secret = None;
                LoginStep::Do(LoginAction::OpenSession)
            },
            LoginEvent::Denied(code) => {
                login.stage = LoginStage::Reporting;
                login.username = String::new();
                login.secret = None;
                LoginStep::Do(LoginAction::Report(code))
            },
            _ => login.fail(ErrorKind::AuthenticationError),
        },
        LoginStage::Reporting => login.fail(ErrorKind::AuthenticationError),
        LoginStage::Opening => match event {
            LoginEvent::Done => {
                let username = login.username.clone();
                login.stage = LoginStage::Idle;
                login.username = String::new();
                login.secret = None;
                LoginStep::Finished(Ok(UserInfo { username, password: String::new() }))
            },
            _ => login.fail(ErrorKind::SessionError),
        },
    }
}

/// The secret is held only between the prompt's answer and the request to
/// judge it: after every move, an attempt that holds one waits for the
/// user's lookup or for the session context, and an attempt that has ended
/// holds neither name nor secret.
pub proof fn lemma_secret_is_short_lived(pre: Login, tty: u32, event: LoginEvent, post: Login, step: LoginStep)
    requires
        pre.moves(tty, event, post, step),
    ensures
        post.secret is Some ==> post.stage == LoginStage::Resolving || post.stage
            == LoginStage::Exporting,
        step is Finished ==> post.is_idle(),
        step matches LoginStep::Finished(Ok(info)) ==> info.password@.len() == 0,
{
}

/// Every refusal, whatever its code, ends the attempt with
/// `AuthenticationError` in the move after it was reported.
pub proof fn lemma_refusal_is_authentication_error(
    pre: Login,
    tty: u32,
    code: AuthCode,
    reporting: Login,
    report: LoginStep,
    event: LoginEvent,
    post: Login,
    step: LoginStep,
)
    requires
        pre.stage == LoginStage::Validating,
        pre.moves(tty, LoginEvent::Denied(code), reporting, report),
        !(event is Begin),
        reporting.moves(tty, event, post, step),
    ensures
        report.reports(code),
        step.fails(ErrorKind::AuthenticationError),
        post.is_idle(),
{
}

} // verus!
