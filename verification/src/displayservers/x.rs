//! The X backend: display allocation, authority cookies and the lifecycle of
//! one server and one session.

use vstd::prelude::*;
use crate::displayservers::{Action, DisplayServer, DisplayServerError, Event, Identity, Step, push_text, texts};
use crate::text::{
    above_digits, hex_digits, is_lower_hex, lemma_hex_digits_injective, lemma_hex_digits_shape,
    push_hex, push_signed_decimal, signed_decimal,
};

verus! {

/// A failure of the X backend.
#[derive(Debug, Clone, Copy, PartialEq, Eq, Structural)]
pub enum XError {
    IOError,
    XAuthError,
    NoFreeDisplayError,
    XStartError,
    DEStartError,
    XCBConnectionError,
    NoSHELLError,
    NoDisplayError,
}

/// Display numbers are taken from zero up to, not including, this one.
pub const DISPLAY_LIMIT: i32 = 200;

/// Display `n` is a candidate and was seen without a lock file.
pub open spec fn is_free(locks: Seq<bool>, n: int) -> bool {
    0 <= n < locks.len() && n < DISPLAY_LIMIT && !locks[n]
}

/// Display `n` is free, and no display below it is.
pub open spec fn is_lowest_free(locks: Seq<bool>, n: int) -> bool {
    is_free(locks, n) && forall|m: int| 0 <= m < n ==> !is_free(locks, m)
}

/// What allocation gives on a table of lock files: the lowest free display,
/// or `NoFreeDisplayError` where there is none.
pub open spec fn allocated(locks: Seq<bool>) -> Result<i32, XError> {
    if exists|n: int| is_lowest_free(locks, n) {
        Ok((choose|n: int| is_lowest_free(locks, n)) as i32)
    } else {
        Err(XError::NoFreeDisplayError)
    }
}

/// Finds the first free display. Entry `n` of `locks` tells whether the lock
/// file of display `n` exists; displays beyond the table count as taken.
pub fn get_free_display(locks: &Vec<bool>) -> (r: Result<i32, XError>)
    ensures
        r == allocated(locks@),
{
    let mut i: i32 = 0;
    while i < DISPLAY_LIMIT && (i as usize) < locks.len()
        invariant
            0 <= i <= DISPLAY_LIMIT,
            i <= locks.len(),
            forall|m: int| 0 <= m < i ==> !is_free(locks@, m),
        decreases DISPLAY_LIMIT - i,
    {
        if !locks[i as usize] {
            proof {
                lemma_lowest_free_chosen(locks@, i as int);
            }
            return Ok(i);
        }
        i = i + 1;
    }
    proof {
        assert forall|n: int| 0 <= n < locks.len() && n < DISPLAY_LIMIT implies locks@[n] by {
            assert(!is_free(locks@, n));
        }
        lemma_all_locked_fails(locks@);
    }
    Err(XError::NoFreeDisplayError)
}

/// Where no candidate display is free, because each has its lock file or
/// stands beyond the table, allocation fails with `NoFreeDisplayError`.
pub proof fn lemma_all_locked_fails(locks: Seq<bool>)
    requires
        forall|n: int| 0 <= n < locks.len() && n < DISPLAY_LIMIT ==> locks[n],
    ensures
        allocated(locks) == Err::<i32, XError>(XError::NoFreeDisplayError),
{
    assert forall|n: int| !is_lowest_free(locks, n) by {
        assert(!is_free(locks, n));
    }
}

/// Where display `k` is free and none below it is, allocation gives `k`: so
/// where exactly one display is free, it gives that one.
pub proof fn lemma_lowest_free_chosen(locks: Seq<bool>, k: int)
    requires
        is_free(locks, k),
        forall|m: int| 0 <= m < k ==> !is_free(locks, m),
    ensures
        allocated(locks) == Ok::<i32, XError>(k as i32),
{
    assert(is_lowest_free(locks, k));
    let n = choose|n: int| is_lowest_free(locks, n);
    assert(n == k) by {
        if n < k {
            assert(!is_free(locks, n));
        } else if k < n {
            assert(!is_free(locks, k));
        }
    }
}

/// Where any display is free, a lowest free one exists.
pub proof fn lemma_lowest_free_exists(locks: Seq<bool>, n: int)
    requires
        is_free(locks, n),
    ensures
        exists|k: int| 0 <= k <= n && is_lowest_free(locks, k),
    decreases n,
{
    if exists|m: int| 0 <= m < n && is_free(locks, m) {
        let m = choose|m: int| 0 <= m < n && is_free(locks, m);
        lemma_lowest_free_exists(locks, m);
    } else {
        assert(is_lowest_free(locks, n));
    }
}

/// Allocation gives a display that is free and has none free below it, and
/// fails only where none is free.
pub proof fn lemma_allocated_is_lowest_free(locks: Seq<bool>)
    ensures
        match allocated(locks) {
            Ok(n) => is_lowest_free(locks, n as int),
            Err(e) => e == XError::NoFreeDisplayError && forall|m: int| !is_free(locks, m),
        },
{
    if exists|n: int| is_lowest_free(locks, n) {
        let n = choose|n: int| is_lowest_free(locks, n);
        assert(0 <= n < DISPLAY_LIMIT);
    } else {
        assert forall|m: int| !is_free(locks, m) by {
            if is_free(locks, m) {
                lemma_lowest_free_exists(locks, m);
            }
        }
    }
}

/// Path of the lock file that marks display `n` as taken.
pub open spec fn lock_path_text(n: int) -> Seq<char> {
    "/tmp/.X"@ + signed_decimal(n) + "-lock"@
}

/// Path of the lock file that marks display `display` as taken.
pub fn lock_path(display: i32) -> (r: String)
    ensures
        r@ == lock_path_text(display as int),
{
    let mut path = "/tmp/.X".to_owned();
    push_signed_decimal(&mut path, display);
    path.append("-lock");
    path
}

/// The text of an authority cookie: its 32 hexadecimal digits.
pub open spec fn cookie_text(cookie: u128) -> Seq<char> {
    hex_digits(cookie as nat, 32)
}

/// Thirty-two lowercase hexadecimal digits.
pub open spec fn is_cookie_text(s: Seq<char>) -> bool {
    s.len() == 32 && forall|i: int| 0 <= i < 32 ==> is_lower_hex(#[trigger] s[i])
}

/// Draws 128 bits from `rand`'s thread-local generator (`rand::thread_rng`,
/// `Rng::gen`). Nothing is claimed of the value.
#[verifier::external_body]
fn random_bits() -> u128 {
    let mut rng = rand::thread_rng();
    rand::Rng::gen(&mut rng)
}

/// Renders a cookie as text.
pub fn render_cookie(cookie: u128) -> (r: String)
    ensures
        r@ == cookie_text(cookie),
        is_cookie_text(r@),
{
    let mut out = String::new();
    push_hex(&mut out, cookie, 32);
    proof {
        lemma_hex_digits_shape(cookie as nat, 32);
        assert(out@ =~= cookie_text(cookie));
    }
    out
}

/// A fresh authority cookie.
pub fn mcookie() -> (r: String)
    ensures
        is_cookie_text(r@),
        exists|cookie: u128| r@ == cookie_text(cookie),
{
    render_cookie(random_bits())
}

/// Different cookies have different texts.
pub proof fn lemma_cookie_text_injective(a: u128, b: u128)
    requires
        cookie_text(a) == cookie_text(b),
    ensures
        a == b,
{
    lemma_no_bits_above(a);
    lemma_no_bits_above(b);
    lemma_hex_digits_injective(a as nat, b as nat, 32);
}

proof fn lemma_no_bits_above(v: u128)
    ensures
        above_digits(v as nat, 32) == 0,
{
    reveal_with_fuel(above_digits, 33);
}

/// Name by which clients address display `n`.
pub open spec fn display_text(n: int) -> Seq<char> {
    ":"@ + signed_decimal(n)
}

/// The server's argument that binds it to virtual terminal `tty`.
pub open spec fn terminal_text(tty: int) -> Seq<char> {
    "vt"@ + signed_decimal(tty)
}

/// Path of the authority file of the user whose home is `home`.
pub open spec fn authority_path_text(home: Seq<char>) -> Seq<char> {
    home + "/.cdxauth"@
}

/// The argument that tells the setup script which session to run.
pub open spec fn session_selector_text(de: Seq<char>) -> Seq<char> {
    "$@="@ + de
}

/// Arguments of the authority tool that bind `cookie` to `display`.
pub open spec fn authority_args(display: int, cookie: Seq<char>) -> Seq<Seq<char>> {
    seq!["add"@, display_text(display), "."@, cookie]
}

/// Arguments of the login shell that runs the session `de`. The driver puts
/// the text of its setup script behind them.
pub open spec fn session_args(de: Seq<char>) -> Seq<Seq<char>> {
    seq!["-c"@, "--login"@, session_selector_text(de)]
}

/// Name by which clients address display `display`.
pub fn display_name(display: i32) -> (r: String)
    ensures
        r@ == display_text(display as int),
{
    let mut name = ":".to_owned();
    push_signed_decimal(&mut name, display);
    name
}

/// Where a server stands in its life. The stages that carry a display or a
/// process wait for the outcome of an action.
#[derive(Debug, Clone, Copy, PartialEq, Eq, Structural)]
pub enum Stage {
    /// Nothing is allocated, or an attempt has failed.
    Created,
    /// Waiting for the table of lock files.
    Scanning,
    /// Waiting for `DISPLAY` to be exported.
    Exporting { display: i32 },
    /// Waiting for the server process to start.
    Spawning { display: i32 },
    /// Waiting for the liveness probe; `left` is how many more probes may
    /// follow this one, `None` for any number.
    Probing { display: i32, pid: u32, left: Option<u32> },
    /// Waiting for the protocol connection.
    Connecting { display: i32, pid: u32, left: Option<u32> },
    /// The server is up and connected.
    Ready,
    /// Waiting for `XAUTHORITY` to be exported.
    Pointing { display: i32 },
    /// Waiting for the authority file to be created or emptied.
    Creating { display: i32 },
    /// Waiting for the authority tool.
    Binding,
    /// Waiting for the session process to start.
    Starting,
    /// Waiting for the session to end.
    Running { pid: u32 },
    /// Waiting for the connection to close; `failure` is what ended the phase.
    Closing { failure: Option<XError> },
    /// The session is over and the connection released.
    Closed,
}

/// One X server and the session on it.
#[derive(Debug)]
pub struct X {
    /// Whether a protocol connection is open.
    pub xcb: bool,
    /// The virtual terminal the server binds to.
    pub tty: i32,
    /// The allocated display, once the server is up.
    pub display: Option<i32>,
    /// The server's process id, once it is up.
    pub xorg: Option<u32>,
    /// How many more probes a server that is slow to come up gets after its
    /// first; `None` for any number.
    pub patience: Option<u32>,
    pub stage: Stage,
}

impl X {
    /// A server for terminal `tty` that holds nothing yet and is waited for
    /// without a limit.
    pub open spec fn new_spec(tty: i32) -> X {
        X { xcb: false, tty, display: None, xorg: None, patience: None, stage: Stage::Created }
    }

    /// A server for terminal `tty` that is waited for without a limit.
    pub fn new(tty: i32) -> (r: Self)
        ensures
            r == X::new_spec(tty),
    {
        X { xcb: false, tty, display: None, xorg: None, patience: None, stage: Stage::Created }
    }

    /// A server for terminal `tty` that is given up when `probes` more
    /// probes after the first have not led to a connection.
    pub fn with_patience(tty: i32, probes: u32) -> (r: Self)
        ensures
            r == (X { patience: Some(probes), ..X::new_spec(tty) }),
    {
        X {
            xcb: false,
            tty,
            display: None,
            xorg: None,
            patience: Some(probes),
            stage: Stage::Created,
        }
    }


    /// A fresh authority cookie.
    pub fn mcookie() -> (r: String)
        ensures
            is_cookie_text(r@),
            exists|cookie: u128| r@ == cookie_text(cookie),
    {
        mcookie()
    }

    /// Finds the first free display in a table of lock files.
    pub fn get_free_display(locks: &Vec<bool>) -> (r: Result<i32, XError>)
        ensures
            r == allocated(locks@),
    {
        get_free_display(locks)
    }

    /// The server with only its stage changed.
    pub open spec fn at(self, stage: Stage) -> X {
        X { stage, ..self }
    }

    /// The server as it is once display `display` is up under process `pid`.
    pub open spec fn brought_up(self, display: i32, pid: u32) -> X {
        X { xcb: true, display: Some(display), xorg: Some(pid), stage: Stage::Ready, ..self }
    }

    /// The server as it is once its session has ended.
    pub open spec fn closed(self) -> X {
        X { xcb: false, stage: Stage::Closed, ..self }
    }

    /// How a phase ends: with success, or with the failure it met.
    pub open spec fn outcome(failure: Option<XError>) -> Result<(), DisplayServerError> {
        match failure {
            None => Ok(()),
            Some(e) => Err(DisplayServerError::XError(e)),
        }
    }

    /// `pre_suid` gives up with `e`: the server is back where it began.
    pub open spec fn pre_suid_fails(self, e: XError, post: X, step: Step) -> bool {
        post == self.at(Stage::Created) && step.finishes(Err(DisplayServerError::XError(e)))
    }

    /// The server is probed once more, if `left` allows it; a server that has
    /// used up its probes is given up with `XCBConnectionError`.
    pub open spec fn probes_again(
        self,
        display: i32,
        pid: u32,
        left: Option<u32>,
        post: X,
        step: Step,
    ) -> bool {
        match left {
            Some(n) => if n == 0 {
                self.pre_suid_fails(XError::XCBConnectionError, post, step)
            } else {
                &&& post == self.at(Stage::Probing { display, pid, left: Some((n - 1) as u32) })
                &&& step.probes(pid)
            },
            None => post == self.at(Stage::Probing { display, pid, left: None }) && step.probes(
                pid,
            ),
        }
    }

    /// What `pre_suid` does in each stage on each event: `post` and `step`
    /// are the server and the answer that follow from `self` and `event`.
    ///
    /// `Event::Begin` starts the phase with a scan of the lock files. The
    /// lowest free display is exported as `DISPLAY`, then the server is
    /// started on it and on the terminal. After that the process is probed
    /// and the display connected to, in turn: a probe that finds no process
    /// yet and a connection that is refused lead to the next probe, for as
    /// long as the server's patience lasts; any other failure ends the
    /// phase. The server's fields change only when the connection stands.
    pub open spec fn pre_suid_moves(self, event: Event, post: X, step: Step) -> bool {
        let begins = post == self.at(Stage::Scanning) && step.scans();
        if event is Begin {
            begins
        } else {
            match self.stage {
                Stage::Scanning => match event {
                    Event::Locks(locks) => match allocated(locks@) {
                        Ok(display) => {
                            &&& post == self.at(Stage::Exporting { display })
                            &&& step.sets_env("DISPLAY"@, display_text(display as int))
                        },
                        Err(e) => self.pre_suid_fails(e, post, step),
                    },
                    _ => begins,
                },
                Stage::Exporting { display } => {
                    &&& post == self.at(Stage::Spawning { display })
                    &&& step.spawns(
                        "/usr/bin/X"@,
                        seq![display_text(display as int), terminal_text(self.tty as int)],
                    )
                },
                Stage::Spawning { display } => match event {
                    Event::Started(pid) => {
                        &&& post == self.at(Stage::Probing { display, pid, left: self.patience })
                        &&& step.probes(pid)
                    },
                    _ => self.pre_suid_fails(XError::XStartError, post, step),
                },
                Stage::Probing { display, pid, left } => match event {
                    Event::Done => {
                        &&& post == self.at(Stage::Connecting { display, pid, left })
                        &&& step.connects(display_text(display as int))
                    },
                    Event::NoSuchProcess => self.probes_again(display, pid, left, post, step),
                    _ => self.pre_suid_fails(XError::XCBConnectionError, post, step),
                },
                Stage::Connecting { display, pid, left } => match event {
                    Event::Done => post == self.brought_up(display, pid) && step.finishes(Ok(())),
                    Event::ConnectionRefused => self.probes_again(display, pid, left, post, step),
                    _ => self.pre_suid_fails(XError::XCBConnectionError, post, step),
                },
                _ => begins,
            }
        }
    }

    /// `post_suid` ends with `failure`, or with success where that is
    /// `None`: an open connection is closed first.
    pub open spec fn post_suid_ends(self, failure: Option<XError>, post: X, step: Step) -> bool {
        if self.xcb {
            post == self.at(Stage::Closing { failure }) && step.disconnects()
        } else {
            post == self.closed() && step.finishes(Self::outcome(failure))
        }
    }

    /// What `post_suid` does in each stage on each event.
    ///
    /// `Event::Begin` starts the phase: without a display it ends at once
    /// with `NoDisplayError`. Else `XAUTHORITY` is
    /// pointed at the user's authority file, the file is created or emptied,
    /// and the authority tool binds a fresh cookie to the display. Then the
    /// session is started through the user's shell and waited for. However
    /// the phase ends after its first action, an open connection is closed
    /// before it does.
    pub open spec fn post_suid_moves(
        self,
        user: Identity,
        de: Seq<char>,
        event: Event,
        post: X,
        step: Step,
    ) -> bool {
        let begins = match self.display {
            None => post == self.at(Stage::Created) && step.finishes(
                Err(DisplayServerError::XError(XError::NoDisplayError)),
            ),
            Some(display) => {
                &&& post == self.at(Stage::Pointing { display })
                &&& step.sets_env("XAUTHORITY"@, authority_path_text(user.home@))
            },
        };
        if event is Begin {
            begins
        } else {
            match self.stage {
                Stage::Pointing { display } => {
                    &&& post == self.at(Stage::Creating { display })
                    &&& step.creates(authority_path_text(user.home@))
                },
                Stage::Creating { display } => match event {
                    Event::Done => {
                        &&& post == self.at(Stage::Binding)
                        &&& exists|cookie: u128| #[trigger]
                            step.runs(
                                "/usr/bin/xauth"@,
                                authority_args(display as int, cookie_text(cookie)),
                            )
                    },
                    _ => self.post_suid_ends(Some(XError::IOError), post, step),
                },
                Stage::Binding => match event {
                    Event::Done => match user.shell {
                        Some(shell) => {
                            &&& post == self.at(Stage::Starting)
                            &&& step.spawns(shell@, session_args(de))
                        },
                        None => self.post_suid_ends(Some(XError::NoSHELLError), post, step),
                    },
                    _ => self.post_suid_ends(Some(XError::XAuthError), post, step),
                },
                Stage::Starting => match event {
                    Event::Started(pid) => {
                        &&& post == self.at(Stage::Running { pid })
                        &&& step.waits(pid)
                    },
                    _ => self.post_suid_ends(Some(XError::DEStartError), post, step),
                },
                Stage::Running { pid } => self.post_suid_ends(None, post, step),
                Stage::Closing { failure } => {
                    &&& post == self.closed()
                    &&& step.finishes(Self::outcome(failure))
                },
                _ => begins,
            }
        }
    }

    fn pre_suid_begin(&mut self) -> (step: Step)
        ensures
            *final(self) == old(self).at(Stage::Scanning),
            step.scans(),
    {
        self.stage = Stage::Scanning;
        Step::Do(Action::ScanLocks)
    }

    fn pre_suid_fail(&mut self, e: XError) -> (step: Step)
        ensures
            old(self).pre_suid_fails(e, *final(self), step),
    {
        self.stage = Stage::Created;
        Step::Finished(Err(DisplayServerError::XError(e)))
    }

    fn probe(&mut self, display: i32, pid: u32, left: Option<u32>) -> (step: Step)
        ensures
            *final(self) == old(self).at(Stage::Probing { display, pid, left }),
            step.probes(pid),
    {
        self.stage = Stage::Probing { display, pid, left };
        Step::Do(Action::Probe { pid })
    }

    fn probe_again(&mut self, display: i32, pid: u32, left: Option<u32>) -> (step: Step)
        ensures
            old(self).probes_again(display, pid, left, *final(self), step),
    {
        match left {
            Some(n) => if n == 0 {
                self.pre_suid_fail(XError::XCBConnectionError)
            } else {
                self.probe(display, pid, Some(n - 1))
            },
            None => self.probe(display, pid, None),
        }
    }

    fn post_suid_begin(&mut self, user_info: &Identity) -> (step: Step)
        ensures
            match old(self).display {
                None => *final(self) == old(self).at(Stage::Created) && step.finishes(
                    Err(DisplayServerError::XError(XError::NoDisplayError)),
                ),
                Some(display) => {
                    &&& *final(self) == old(self).at(Stage::Pointing { display })
                    &&& step.sets_env("XAUTHORITY"@, authority_path_text(user_info.home@))
                },
            },
    {
        match self.display {
            None => {
                self.stage = Stage::Created;
                Step::Finished(Err(DisplayServerError::XError(XError::NoDisplayError)))
            },
            Some(display) => {
                self.stage = Stage::Pointing { display };
                Step::Do(
                    Action::SetEnv {
                        name: "XAUTHORITY".to_owned(),
                        value: authority_path(&user_info.home),
                    },
                )
            },
        }
    }

    fn post_suid_end(&mut self, failure: Option<XError>) -> (step: Step)
        ensures
            old(self).post_suid_ends(failure, *final(self), step),
    {
        if self.xcb {
            self.stage = Stage::Closing { failure };
            Step::Do(Action::Disconnect)
        } else {
            self.stage = Stage::Closed;
            Step::Finished(finish(failure))
        }
    }
}

fn finish(failure: Option<XError>) -> (r: Result<(), DisplayServerError>)
    ensures
        r == X::outcome(failure),
{
    match failure {
        None => Ok(()),
        Some(e) => Err(DisplayServerError::XError(e)),
    }
}

/// Path of the authority file of the user whose home is `home`.
pub fn authority_path(home: &String) -> (r: String)
    ensures
        r@ == authority_path_text(home@),
{
    let mut path = home.clone();
    path.append("/.cdxauth");
    path
}

impl DisplayServer for X {
    fn pre_suid(&mut self, event: Event) -> (step: Step)
        ensures
            old(self).pre_suid_moves(event, *final(self), step),
    {
        if let Event::Begin = event {
            return self.pre_suid_begin();
        }
        match self.stage {
            Stage::Scanning => match event {
                Event::Locks(locks) => match get_free_display(&locks) {
                    Ok(display) => {
                        self.stage = Stage::Exporting { display };
                        let step = Step::Do(
                            Action::SetEnv {
                                name: "DISPLAY".to_owned(),
                                value: display_name(display),
                            },
                        );
                        step
                    },
                    Err(e) => self.pre_suid_fail(e),
                },
                _ => self.pre_suid_begin(),
            },
            Stage::Exporting { display } => {
                let mut terminal = "vt".to_owned();
                push_signed_decimal(&mut terminal, self.tty);
                let mut args: Vec<String> = Vec::new();
                push_text(&mut args, display_name(display));
                push_text(&mut args, terminal);
                assert(texts(args@) =~= seq![
                    display_text(display as int),
                    terminal_text(self.tty as int),
                ]);
                self.stage = Stage::Spawning { display };
                Step::Do(Action::Spawn { program: "/usr/bin/X".to_owned(), args })
            },
            Stage::Spawning { display } => match event {
                Event::Started(pid) => {
                    let left = self.patience;
                    self.probe(display, pid, left)
                },
                _ => self.pre_suid_fail(XError::XStartError),
            },
            Stage::Probing { display, pid, left } => match event {
                Event::Done => {
                    self.stage = Stage::Connecting { display, pid, left };
                    Step::Do(Action::Connect { display: display_name(display) })
                },
                Event::NoSuchProcess => self.probe_again(display, pid, left),
                _ => self.pre_suid_fail(XError::XCBConnectionError),
            },
            Stage::Connecting { display, pid, left } => match event {
                Event::Done => {
                    self.display = Some(display);
                    self.xorg = Some(pid);
                    self.xcb = true;
                    self.stage = Stage::Ready;
                    Step::Finished(Ok(()))
                },
                Event::ConnectionRefused => self.probe_again(display, pid, left),
                _ => self.pre_suid_fail(XError::XCBConnectionError),
            },
            _ => self.pre_suid_begin(),
        }
    }

    fn post_suid(&mut self, user_info: &Identity, de: &str, event: Event) -> (step: Step)
        ensures
            old(self).post_suid_moves(*user_info, de@, event, *final(self), step),
    {
        if let Event::Begin = event {
            return self.post_suid_begin(user_info);
        }
        match self.stage {
            Stage::Pointing { display } => {
                self.stage = Stage::Creating { display };
                Step::Do(Action::CreateFile { path: authority_path(&user_info.home) })
            },
            Stage::Creating { display } => match event {
                Event::Done => {
                    let cookie = mcookie();
                    let ghost bits = choose|bits: u128| cookie@ == cookie_text(bits);
                    let mut args: Vec<String> = Vec::new();
                    push_text(&mut args, "add".to_owned());
                    push_text(&mut args, display_name(display));
                    push_text(&mut args, ".".to_owned());
                    push_text(&mut args, cookie);
                    assert(texts(args@) =~= authority_args(display as int, cookie_text(bits)));
                    self.stage = Stage::Binding;
                    let step = Step::Do(Action::Run { program: "/usr/bin/xauth".to_owned(), args });
                    assert(step.runs(
                        "/usr/bin/xauth"@,
                        authority_args(display as int, cookie_text(bits)),
                    ));
                    step
                },
                _ => self.post_suid_end(Some(XError::IOError)),
            },
            Stage::Binding => match event {
                Event::Done => match &user_info.shell {
                    Some(shell) => {
                        let mut selector = "$@=".to_owned();
                        selector.append(de);
                        let mut args: Vec<String> = Vec::new();
                        push_text(&mut args, "-c".to_owned());
                        push_text(&mut args, "--login".to_owned());
                        push_text(&mut args, selector);
                        assert(texts(args@) =~= session_args(de@));
                        self.stage = Stage::Starting;
                        Step::Do(Action::Spawn { program: shell.clone(), args })
                    },
                    None => self.post_suid_end(Some(XError::NoSHELLError)),
                },
                _ => self.post_suid_end(Some(XError::XAuthError)),
            },
            Stage::Starting => match event {
                Event::Started(pid) => {
                    self.stage = Stage::Running { pid };
                    Step::Do(Action::Wait { pid })
                },
                _ => self.post_suid_end(Some(XError::DEStartError)),
            },
            Stage::Running { pid } => self.post_suid_end(None),
            Stage::Closing { failure } => {
                self.xcb = false;
                self.stage = Stage::Closed;
                Step::Finished(finish(failure))
            },
            _ => self.post_suid_begin(user_info),
        }
    }
}

/// `pre_suid` leaves the display, the process and the connection of a server
/// as they are until the connection stands: an attempt that fails, or is
/// still under way, has stored nothing.
pub proof fn lemma_stored_only_when_up(pre: X, event: Event, post: X, step: Step)
    requires
        pre.pre_suid_moves(event, post, step),
    ensures
        post.tty == pre.tty,
        post.patience == pre.patience,
        !step.finishes(Ok(())) ==> post.display == pre.display && post.xorg == pre.xorg
            && post.xcb == pre.xcb,
        step.finishes(Ok(())) ==> post.display is Some && post.xorg is Some && post.xcb,
{
}

impl Stage {
    /// Whether the stage belongs to the session's phase and waits for the
    /// outcome of an action.
    pub open spec fn is_in_session(self) -> bool {
        self is Pointing || self is Creating || self is Binding || self is Starting
            || self is Running || self is Closing
    }

    /// Whether the stage belongs to the session's phase and waits for the
    /// outcome of an action.
    pub fn in_session(self) -> (r: bool)
        ensures
            r == self.is_in_session(),
    {
        match self {
            Stage::Pointing { .. }
            | Stage::Creating { .. }
            | Stage::Binding
            | Stage::Starting
            | Stage::Running { .. }
            | Stage::Closing { .. } => true,
            _ => false,
        }
    }
}

/// What `start_x` does: the moves of `pre_suid` until the connection
/// stands, then at once the first move of `post_suid`, and the moves of
/// `post_suid` from there on.
pub open spec fn start_x_moves(
    pre: X,
    user: Identity,
    de: Seq<char>,
    event: Event,
    post: X,
    step: Step,
) -> bool {
    if event is Begin {
        pre.pre_suid_moves(event, post, step)
    } else if pre.stage.is_in_session() {
        pre.post_suid_moves(user, de, event, post, step)
    } else {
        match (pre.stage, event) {
            (Stage::Connecting { display, pid, .. }, Event::Done) => {
                &&& post == pre.brought_up(display, pid).at(Stage::Pointing { display })
                &&& step.sets_env("XAUTHORITY"@, authority_path_text(user.home@))
            },
            _ => pre.pre_suid_moves(event, post, step),
        }
    }
}

/// Runs a server and a session on it as one: moves `x` through both phases,
/// for a caller that has no privileges to drop between them. The phase
/// as the user begins in the same move in which the connection stands.
pub fn start_x(x: &mut X, user_info: &Identity, de: &str, event: Event) -> (step: Step)
    ensures
        start_x_moves(*old(x), *user_info, de@, event, *final(x), step),
{
    if let Event::Begin = event {
        return x.pre_suid(event);
    }
    if x.stage.in_session() {
        return x.post_suid(user_info, de, event);
    }
    match x.pre_suid(event) {
        Step::Finished(Ok(_)) => x.post_suid(user_info, de, Event::Begin),
        step => step,
    }
}

/// The server is started only on a display that was exported as `DISPLAY`
/// in the move before, so that the server and all that is started after it
/// find it in their environment.
pub proof fn lemma_display_exported_before_server(
    s0: X,
    e1: Event,
    s1: X,
    a1: Step,
    e2: Event,
    s2: X,
    a2: Step,
)
    requires
        s0.pre_suid_moves(e1, s1, a1),
        s1.pre_suid_moves(e2, s2, a2),
        a2 matches Step::Do(Action::Spawn { .. }),
    ensures
        exists|display: i32|
            {
                &&& #[trigger] a1.sets_env("DISPLAY"@, display_text(display as int))
                &&& a2.spawns(
                    "/usr/bin/X"@,
                    seq![display_text(display as int), terminal_text(s0.tty as int)],
                )
                &&& 0 <= display < DISPLAY_LIMIT
            },
{
    let display = s1.stage->Exporting_display;
    assert(s1.stage == Stage::Exporting { display });
    match e1 {
        Event::Locks(locks) => {
            lemma_allocated_is_lowest_free(locks@);
        },
        _ => {},
    }
    assert(a1.sets_env("DISPLAY"@, display_text(display as int)));
}

/// A connection is attempted only after a probe, in the move before, has
/// found the server's process alive.
pub proof fn lemma_probe_before_connection(
    s0: X,
    e1: Event,
    s1: X,
    a1: Step,
    e2: Event,
    s2: X,
    a2: Step,
)
    requires
        s0.pre_suid_moves(e1, s1, a1),
        s1.pre_suid_moves(e2, s2, a2),
        a2 matches Step::Do(Action::Connect { .. }),
    ensures
        e2 is Done,
        exists|pid: u32| #[trigger] a1.probes(pid),
{
    let pid = s1.stage->Probing_pid;
    assert(a1.probes(pid));
}

/// The `i`-th move of a history of `post_suid` for `user` and the session
/// `de`.
pub open spec fn is_post_suid_move(
    user: Identity,
    de: Seq<char>,
    states: Seq<X>,
    events: Seq<Event>,
    steps: Seq<Step>,
    i: int,
) -> bool {
    states[i].post_suid_moves(user, de, events[i], states[i + 1], steps[i])
}

/// How many more probes the server in `stage` may get; `None` for any
/// number, and for a stage in which no server is waited for.
pub open spec fn probes_left(stage: Stage) -> Option<u32> {
    match stage {
        Stage::Probing { left, .. } => left,
        Stage::Connecting { left, .. } => left,
        _ => None,
    }
}

/// A server with limited patience is not waited for without end: each probe
/// after the first takes one from what is left, and when nothing is left
/// the server is given up.
pub proof fn lemma_patience_runs_out(pre: X, event: Event, post: X, step: Step, left: u32)
    requires
        pre.pre_suid_moves(event, post, step),
        pre.stage is Probing || pre.stage is Connecting,
        probes_left(pre.stage) == Some(left),
        !(event is Begin),
    ensures
        match step {
            Step::Finished(_) => true,
            Step::Do(Action::Probe { .. }) => left > 0 && probes_left(post.stage) == Some(
                (left - 1) as u32,
            ),
            Step::Do(_) => probes_left(post.stage) == Some(left),
        },
{
}

/// The session is started only when the authority file has been provisioned
/// in the three moves before: `XAUTHORITY` pointed at the user's file, the
/// file created or emptied, and a cookie bound to the display by the
/// authority tool, the last two with success. As the file is emptied each
/// time, it never holds more than the cookie of the latest provisioning.
pub proof fn lemma_authority_before_session(
    user: Identity,
    de: Seq<char>,
    states: Seq<X>,
    events: Seq<Event>,
    steps: Seq<Step>,
)
    requires
        states.len() == 5,
        events.len() == 4,
        steps.len() == 4,
        forall|i: int|
            0 <= i < 4 ==> #[trigger] is_post_suid_move(user, de, states, events, steps, i),
        steps[3] matches Step::Do(Action::Spawn { .. }),
    ensures
        steps[0].sets_env("XAUTHORITY"@, authority_path_text(user.home@)),
        steps[1].creates(authority_path_text(user.home@)),
        events[2] is Done,
        exists|display: i32, cookie: u128|
            #![trigger authority_args(display as int, cookie_text(cookie))]
            states[0].display == Some(display) && steps[2].runs(
                "/usr/bin/xauth"@,
                authority_args(display as int, cookie_text(cookie)),
            ),
        events[3] is Done,
        user.shell is Some,
        steps[3].spawns(user.shell->0@, session_args(de)),
{
    assert(is_post_suid_move(user, de, states, events, steps, 3));
    assert(states[3].stage == Stage::Binding);
    assert(is_post_suid_move(user, de, states, events, steps, 2));
    let display = states[2].stage->Creating_display;
    assert(states[2].stage == Stage::Creating { display });
    assert(is_post_suid_move(user, de, states, events, steps, 1));
    assert(states[1].stage == Stage::Pointing { display });
    assert(is_post_suid_move(user, de, states, events, steps, 0));
    let cookie = choose|cookie: u128| #[trigger]
        steps[2].runs("/usr/bin/xauth"@, authority_args(display as int, cookie_text(cookie)));
    assert(states[0].display == Some(display) && steps[2].runs(
        "/usr/bin/xauth"@,
        authority_args(display as int, cookie_text(cookie)),
    ));
}

/// When `post_suid` ends on a server that has a display, no connection is
/// left open, whether the phase succeeded or failed.
pub proof fn lemma_connection_released(
    pre: X,
    user: Identity,
    de: Seq<char>,
    event: Event,
    post: X,
    step: Step,
)
    requires
        pre.post_suid_moves(user, de, event, post, step),
        pre.display is Some,
        step is Finished,
    ensures
        !post.xcb,
        post.stage == Stage::Closed,
{
}

} // verus!
