use cadmium::displayservers::x::{
    authority_path, display_name, get_free_display, lock_path, mcookie, render_cookie, start_x,
    Stage, XError, DISPLAY_LIMIT, X,
};
use cadmium::displayservers::{Action, DisplayServer, DisplayServerError, Event, Identity, Step};

fn alice() -> Identity {
    Identity {
        username: "alice".to_string(),
        uid: 1000,
        gid: 1000,
        home: "/home/alice".to_string(),
        shell: Some("/bin/bash".to_string()),
    }
}

fn is_lower_hex(text: &str) -> bool {
    text.chars().all(|c| c.is_ascii_digit() || ('a'..='f').contains(&c))
}

fn table(free: &[usize]) -> Vec<bool> {
    let mut locks = vec![true; 200];
    for n in free {
        locks[*n] = false;
    }
    locks
}

/// Drives `pre_suid` through a server that is ready at once on `display`.
fn bring_up(x: &mut X, display: usize, pid: u32) {
    assert!(matches!(x.pre_suid(Event::Begin), Step::Do(Action::ScanLocks)));
    assert!(matches!(x.pre_suid(Event::Locks(table(&[display]))), Step::Do(Action::SetEnv { .. })));
    assert!(matches!(x.pre_suid(Event::Done), Step::Do(Action::Spawn { .. })));
    assert!(matches!(x.pre_suid(Event::Started(pid)), Step::Do(Action::Probe { .. })));
    assert!(matches!(x.pre_suid(Event::Done), Step::Do(Action::Connect { .. })));
    assert!(matches!(x.pre_suid(Event::Done), Step::Finished(Ok(()))));
}

fn failure(step: Step) -> XError {
    match step {
        Step::Finished(Err(DisplayServerError::XError(e))) => e,
        other => panic!("no failure: {:?}", other),
    }
}

#[test]
fn test_mcookie_length() {
    assert_eq!(X::mcookie().len(), 32)
}

#[test]
fn test_mcookie_same() {
    assert_ne!(X::mcookie(), X::mcookie());
}

#[test]
fn x_test_mcookie_length() {
    assert_eq!(mcookie().len(), 32)
}

#[test]
fn x_test_mcookie_same() {
    assert_ne!(mcookie(), mcookie());
}

#[test]
fn mcookie_is_lowercase_hex() {
    for _ in 0..64 {
        let cookie = mcookie();
        assert_eq!(cookie.chars().count(), 32);
        assert!(is_lower_hex(&cookie));
    }
}

#[test]
fn render_cookie_exact_values() {
    assert_eq!(render_cookie(0), "00000000000000000000000000000000");
    assert_eq!(render_cookie(u128::MAX), "ffffffffffffffffffffffffffffffff");
    assert_eq!(render_cookie(0xab), "000000000000000000000000000000ab");
    assert_eq!(
        render_cookie(0x0123456789abcdef_fedcba9876543210),
        "0123456789abcdeffedcba9876543210"
    );
    assert_eq!(render_cookie(1u128 << 127), "80000000000000000000000000000000");
}

#[test]
fn render_cookie_distinguishes_cookies() {
    assert_ne!(render_cookie(1), render_cookie(16));
    assert_ne!(render_cookie(0), render_cookie(1u128 << 127));
}

#[test]
fn allocation_fails_when_all_locked() {
    assert_eq!(get_free_display(&vec![true; 200]), Err(XError::NoFreeDisplayError));
    assert_eq!(X::get_free_display(&vec![true; 200]), Err(XError::NoFreeDisplayError));
}

#[test]
fn allocation_takes_the_single_free_display() {
    for n in [0usize, 1, 7, 42, 199] {
        assert_eq!(get_free_display(&table(&[n])), Ok(n as i32));
    }
}

#[test]
fn allocation_takes_the_lowest_free_display() {
    assert_eq!(get_free_display(&table(&[150, 3, 99])), Ok(3));
    assert_eq!(get_free_display(&vec![false; 200]), Ok(0));
}

#[test]
fn allocation_stops_at_the_limit() {
    assert_eq!(DISPLAY_LIMIT, 200);
    let mut locks = vec![true; 300];
    locks[200] = false;
    locks[250] = false;
    assert_eq!(get_free_display(&locks), Err(XError::NoFreeDisplayError));
    locks[199] = false;
    assert_eq!(get_free_display(&locks), Ok(199));
}

#[test]
fn allocation_on_short_tables() {
    assert_eq!(get_free_display(&Vec::new()), Err(XError::NoFreeDisplayError));
    assert_eq!(get_free_display(&vec![true, true, true]), Err(XError::NoFreeDisplayError));
    assert_eq!(get_free_display(&vec![true, true, false]), Ok(2));
}

#[test]
fn lock_path_follows_the_convention() {
    assert_eq!(lock_path(0), "/tmp/.X0-lock");
    assert_eq!(lock_path(7), "/tmp/.X7-lock");
    assert_eq!(lock_path(199), "/tmp/.X199-lock");
    assert_eq!(lock_path(-3), "/tmp/.X-3-lock");
}

#[test]
fn display_name_and_authority_path() {
    assert_eq!(display_name(0), ":0");
    assert_eq!(display_name(7), ":7");
    assert_eq!(display_name(120), ":120");
    assert_eq!(display_name(i32::MIN), ":-2147483648");
    assert_eq!(display_name(i32::MAX), ":2147483647");
    assert_eq!(authority_path(&"/home/alice".to_string()), "/home/alice/.cdxauth");
    assert_eq!(authority_path(&String::new()), "/.cdxauth");
}

#[test]
fn new_server_holds_nothing() {
    let x = X::new(2);
    assert_eq!(x.tty, 2);
    assert_eq!(x.display, None);
    assert_eq!(x.xorg, None);
    assert_eq!(x.patience, None);
    assert!(!x.xcb);
    assert_eq!(x.stage, Stage::Created);
    let y = X::with_patience(3, 10);
    assert_eq!(y.tty, 3);
    assert_eq!(y.patience, Some(10));
    assert_eq!(y.display, None);
    assert_eq!(y.stage, Stage::Created);
}

#[test]
fn pre_suid_gives_up_when_patience_runs_out() {
    let mut x = X::with_patience(2, 3);
    x.pre_suid(Event::Begin);
    x.pre_suid(Event::Locks(table(&[0])));
    x.pre_suid(Event::Done);
    assert!(matches!(x.pre_suid(Event::Started(9)), Step::Do(Action::Probe { pid: 9 })));
    assert!(matches!(x.pre_suid(Event::NoSuchProcess), Step::Do(Action::Probe { pid: 9 })));
    assert!(matches!(x.pre_suid(Event::Done), Step::Do(Action::Connect { .. })));
    assert!(matches!(x.pre_suid(Event::ConnectionRefused), Step::Do(Action::Probe { pid: 9 })));
    assert!(matches!(x.pre_suid(Event::Done), Step::Do(Action::Connect { .. })));
    assert!(matches!(x.pre_suid(Event::ConnectionRefused), Step::Do(Action::Probe { pid: 9 })));
    assert_eq!(x.stage, Stage::Probing { display: 0, pid: 9, left: Some(0) });
    assert_eq!(failure(x.pre_suid(Event::NoSuchProcess)), XError::XCBConnectionError);
    assert_eq!(x.stage, Stage::Created);
    assert_eq!(x.display, None);
}

#[test]
fn pre_suid_without_patience_probes_once() {
    let mut x = X::with_patience(2, 0);
    x.pre_suid(Event::Begin);
    x.pre_suid(Event::Locks(table(&[0])));
    x.pre_suid(Event::Done);
    assert!(matches!(x.pre_suid(Event::Started(9)), Step::Do(Action::Probe { pid: 9 })));
    assert!(matches!(x.pre_suid(Event::Done), Step::Do(Action::Connect { .. })));
    assert_eq!(failure(x.pre_suid(Event::ConnectionRefused)), XError::XCBConnectionError);

    let mut y = X::with_patience(2, 0);
    y.pre_suid(Event::Begin);
    y.pre_suid(Event::Locks(table(&[0])));
    y.pre_suid(Event::Done);
    y.pre_suid(Event::Started(9));
    y.pre_suid(Event::Done);
    assert!(matches!(y.pre_suid(Event::Done), Step::Finished(Ok(()))));
    assert_eq!(y.display, Some(0));
}

#[test]
fn pre_suid_brings_the_server_up() {
    let mut x = X::new(2);
    assert!(matches!(x.pre_suid(Event::Begin), Step::Do(Action::ScanLocks)));
    match x.pre_suid(Event::Locks(table(&[7, 9]))) {
        Step::Do(Action::SetEnv { name, value }) => {
            assert_eq!(name, "DISPLAY");
            assert_eq!(value, ":7");
        }
        other => panic!("unexpected step: {:?}", other),
    }
    match x.pre_suid(Event::Done) {
        Step::Do(Action::Spawn { program, args }) => {
            assert_eq!(program, "/usr/bin/X");
            assert_eq!(args, vec![":7".to_string(), "vt2".to_string()]);
        }
        other => panic!("unexpected step: {:?}", other),
    }
    assert!(matches!(x.pre_suid(Event::Started(4242)), Step::Do(Action::Probe { pid: 4242 })));
    assert_eq!(x.display, None);
    match x.pre_suid(Event::Done) {
        Step::Do(Action::Connect { display }) => assert_eq!(display, ":7"),
        other => panic!("unexpected step: {:?}", other),
    }
    assert!(matches!(x.pre_suid(Event::Done), Step::Finished(Ok(()))));
    assert_eq!(x.display, Some(7));
    assert_eq!(x.xorg, Some(4242));
    assert!(x.xcb);
    assert_eq!(x.stage, Stage::Ready);
}

#[test]
fn pre_suid_polls_until_the_server_answers() {
    let mut x = X::new(3);
    x.pre_suid(Event::Begin);
    x.pre_suid(Event::Locks(table(&[0])));
    x.pre_suid(Event::Done);
    x.pre_suid(Event::Started(77));
    for _ in 0..5 {
        assert!(matches!(x.pre_suid(Event::NoSuchProcess), Step::Do(Action::Probe { pid: 77 })));
    }
    assert!(matches!(x.pre_suid(Event::Done), Step::Do(Action::Connect { .. })));
    for _ in 0..5 {
        assert!(matches!(
            x.pre_suid(Event::ConnectionRefused),
            Step::Do(Action::Probe { pid: 77 })
        ));
        assert!(matches!(x.pre_suid(Event::Done), Step::Do(Action::Connect { .. })));
    }
    assert!(matches!(x.pre_suid(Event::Done), Step::Finished(Ok(()))));
    assert_eq!(x.display, Some(0));
}

#[test]
fn pre_suid_without_free_display() {
    let mut x = X::new(2);
    x.pre_suid(Event::Begin);
    assert_eq!(failure(x.pre_suid(Event::Locks(vec![true; 200]))), XError::NoFreeDisplayError);
    assert_eq!(x.display, None);
    assert_eq!(x.stage, Stage::Created);
}

#[test]
fn pre_suid_spawn_failure() {
    let mut x = X::new(2);
    x.pre_suid(Event::Begin);
    x.pre_suid(Event::Locks(table(&[1])));
    x.pre_suid(Event::Done);
    assert_eq!(failure(x.pre_suid(Event::Failed)), XError::XStartError);
    assert_eq!(x.display, None);
    assert_eq!(x.xorg, None);
}

#[test]
fn pre_suid_probe_and_connection_failures() {
    let mut x = X::new(2);
    x.pre_suid(Event::Begin);
    x.pre_suid(Event::Locks(table(&[1])));
    x.pre_suid(Event::Done);
    x.pre_suid(Event::Started(5));
    assert_eq!(failure(x.pre_suid(Event::Failed)), XError::XCBConnectionError);
    assert_eq!(x.stage, Stage::Created);

    x.pre_suid(Event::Begin);
    x.pre_suid(Event::Locks(table(&[1])));
    x.pre_suid(Event::Done);
    x.pre_suid(Event::Started(6));
    x.pre_suid(Event::Done);
    assert_eq!(failure(x.pre_suid(Event::Failed)), XError::XCBConnectionError);
    assert_eq!(x.display, None);
    assert!(!x.xcb);
}

#[test]
fn pre_suid_takes_no_answer_of_the_wrong_kind() {
    let mut x = X::new(2);
    x.pre_suid(Event::Begin);
    x.pre_suid(Event::Locks(table(&[1])));
    x.pre_suid(Event::Done);
    x.pre_suid(Event::Started(5));
    assert_eq!(failure(x.pre_suid(Event::ConnectionRefused)), XError::XCBConnectionError);

    x.pre_suid(Event::Begin);
    x.pre_suid(Event::Locks(table(&[1])));
    x.pre_suid(Event::Done);
    x.pre_suid(Event::Started(6));
    x.pre_suid(Event::Done);
    assert_eq!(failure(x.pre_suid(Event::NoSuchProcess)), XError::XCBConnectionError);
}

#[test]
fn post_suid_needs_a_display() {
    let mut x = X::new(2);
    assert_eq!(failure(x.post_suid(&alice(), "bspwm", Event::Begin)), XError::NoDisplayError);
    assert_eq!(x.stage, Stage::Created);
}

#[test]
fn post_suid_runs_the_session() {
    let mut x = X::new(2);
    bring_up(&mut x, 7, 900);
    match x.post_suid(&alice(), "bspwm", Event::Begin) {
        Step::Do(Action::SetEnv { name, value }) => {
            assert_eq!(name, "XAUTHORITY");
            assert_eq!(value, "/home/alice/.cdxauth");
        }
        other => panic!("unexpected step: {:?}", other),
    }
    match x.post_suid(&alice(), "bspwm", Event::Done) {
        Step::Do(Action::CreateFile { path }) => assert_eq!(path, "/home/alice/.cdxauth"),
        other => panic!("unexpected step: {:?}", other),
    }
    match x.post_suid(&alice(), "bspwm", Event::Done) {
        Step::Do(Action::Run { program, args }) => {
            assert_eq!(program, "/usr/bin/xauth");
            assert_eq!(args.len(), 4);
            assert_eq!(args[0], "add");
            assert_eq!(args[1], ":7");
            assert_eq!(args[2], ".");
            assert_eq!(args[3].len(), 32);
            assert!(is_lower_hex(&args[3]));
        }
        other => panic!("unexpected step: {:?}", other),
    }
    match x.post_suid(&alice(), "bspwm", Event::Done) {
        Step::Do(Action::Spawn { program, args }) => {
            assert_eq!(program, "/bin/bash");
            assert_eq!(
                args,
                vec!["-c".to_string(), "--login".to_string(), "$@=bspwm".to_string()]
            );
        }
        other => panic!("unexpected step: {:?}", other),
    }
    assert!(matches!(
        x.post_suid(&alice(), "bspwm", Event::Started(901)),
        Step::Do(Action::Wait { pid: 901 })
    ));
    assert_eq!(x.stage, Stage::Running { pid: 901 });
    assert!(matches!(x.post_suid(&alice(), "bspwm", Event::Done), Step::Do(Action::Disconnect)));
    assert!(x.xcb);
    assert!(matches!(x.post_suid(&alice(), "bspwm", Event::Done), Step::Finished(Ok(()))));
    assert!(!x.xcb);
    assert_eq!(x.stage, Stage::Closed);
    assert_eq!(x.display, Some(7));
}

#[test]
fn post_suid_ignores_how_the_session_ended() {
    let mut x = X::new(2);
    bring_up(&mut x, 1, 10);
    x.post_suid(&alice(), "i3", Event::Begin);
    x.post_suid(&alice(), "i3", Event::Done);
    x.post_suid(&alice(), "i3", Event::Done);
    x.post_suid(&alice(), "i3", Event::Done);
    x.post_suid(&alice(), "i3", Event::Started(11));
    assert!(matches!(x.post_suid(&alice(), "i3", Event::Failed), Step::Do(Action::Disconnect)));
    assert!(matches!(x.post_suid(&alice(), "i3", Event::Failed), Step::Finished(Ok(()))));
}

/// Runs `post_suid` up to its `n`-th answer, fails there, and gives the
/// failure that comes out once the connection is closed.
fn post_suid_failure_after(n: usize, user: &Identity) -> XError {
    let mut x = X::new(2);
    bring_up(&mut x, 4, 10);
    x.post_suid(user, "bspwm", Event::Begin);
    for _ in 0..n {
        x.post_suid(user, "bspwm", Event::Done);
    }
    let step = if n == 3 {
        x.post_suid(user, "bspwm", Event::Failed)
    } else if n == 2 && user.shell.is_none() {
        x.post_suid(user, "bspwm", Event::Done)
    } else {
        x.post_suid(user, "bspwm", Event::Failed)
    };
    assert!(matches!(step, Step::Do(Action::Disconnect)));
    assert!(x.xcb);
    let e = failure(x.post_suid(user, "bspwm", Event::Done));
    assert!(!x.xcb);
    assert_eq!(x.stage, Stage::Closed);
    e
}

#[test]
fn post_suid_failures() {
    assert_eq!(post_suid_failure_after(1, &alice()), XError::IOError);
    assert_eq!(post_suid_failure_after(2, &alice()), XError::XAuthError);
    assert_eq!(post_suid_failure_after(3, &alice()), XError::DEStartError);
    let mut homeless = alice();
    homeless.shell = None;
    assert_eq!(post_suid_failure_after(2, &homeless), XError::NoSHELLError);
}

#[test]
fn post_suid_failure_without_connection_ends_at_once() {
    let mut x = X::new(2);
    x.display = Some(3);
    x.post_suid(&alice(), "bspwm", Event::Begin);
    x.post_suid(&alice(), "bspwm", Event::Done);
    assert_eq!(failure(x.post_suid(&alice(), "bspwm", Event::Failed)), XError::IOError);
    assert_eq!(x.stage, Stage::Closed);
}

#[test]
fn provisioning_twice_empties_the_file_each_time() {
    let mut x = X::new(2);
    bring_up(&mut x, 7, 900);
    let mut cookies = Vec::new();
    for _ in 0..2 {
        assert!(matches!(
            x.post_suid(&alice(), "bspwm", Event::Begin),
            Step::Do(Action::SetEnv { .. })
        ));
        match x.post_suid(&alice(), "bspwm", Event::Done) {
            Step::Do(Action::CreateFile { path }) => assert_eq!(path, "/home/alice/.cdxauth"),
            other => panic!("unexpected step: {:?}", other),
        }
        match x.post_suid(&alice(), "bspwm", Event::Done) {
            Step::Do(Action::Run { args, .. }) => {
                assert_eq!(args[1], ":7");
                cookies.push(args[3].clone());
            }
            other => panic!("unexpected step: {:?}", other),
        }
    }
    assert_ne!(cookies[0], cookies[1]);
}

#[test]
fn display_error_wraps_the_backend_error() {
    assert_eq!(
        DisplayServerError::from(XError::NoFreeDisplayError),
        DisplayServerError::XError(XError::NoFreeDisplayError)
    );
    assert_eq!(
        DisplayServerError::from(XError::IOError),
        DisplayServerError::XError(XError::IOError)
    );
}

#[test]
fn start_x_runs_both_phases() {
    let mut x = X::new(2);
    let user = alice();
    let mut asked: Vec<String> = Vec::new();
    let mut event = Event::Begin;
    let result = loop {
        event = match start_x(&mut x, &user, "bspwm", event) {
            Step::Do(Action::ScanLocks) => Event::Locks(table(&[5])),
            Step::Do(Action::SetEnv { name, value }) => {
                asked.push(format!("{}={}", name, value));
                Event::Done
            }
            Step::Do(Action::Spawn { program, .. }) => {
                asked.push(format!("spawn {}", program));
                Event::Started(asked.len() as u32)
            }
            Step::Do(Action::Probe { .. }) => Event::Done,
            Step::Do(Action::Connect { display }) => {
                asked.push(format!("connect {}", display));
                Event::Done
            }
            Step::Do(Action::CreateFile { path }) => {
                asked.push(format!("create {}", path));
                Event::Done
            }
            Step::Do(Action::Run { program, .. }) => {
                asked.push(format!("run {}", program));
                Event::Done
            }
            Step::Do(Action::Wait { pid }) => {
                asked.push(format!("wait {}", pid));
                Event::Done
            }
            Step::Do(Action::Disconnect) => {
                asked.push("disconnect".to_string());
                Event::Done
            }
            Step::Finished(result) => break result,
        };
    };
    assert_eq!(result, Ok(()));
    assert_eq!(
        asked,
        vec![
            "DISPLAY=:5",
            "spawn /usr/bin/X",
            "connect :5",
            "XAUTHORITY=/home/alice/.cdxauth",
            "create /home/alice/.cdxauth",
            "run /usr/bin/xauth",
            "spawn /bin/bash",
            "wait 7",
            "disconnect",
        ]
    );
    assert_eq!(x.stage, Stage::Closed);
    assert_eq!(x.display, Some(5));
}

#[test]
fn start_x_ends_where_the_server_fails() {
    let mut x = X::new(2);
    start_x(&mut x, &alice(), "bspwm", Event::Begin);
    assert_eq!(
        failure(start_x(&mut x, &alice(), "bspwm", Event::Locks(vec![true; 200]))),
        XError::NoFreeDisplayError
    );
    start_x(&mut x, &alice(), "bspwm", Event::Begin);
    start_x(&mut x, &alice(), "bspwm", Event::Locks(table(&[0])));
    start_x(&mut x, &alice(), "bspwm", Event::Done);
    assert_eq!(failure(start_x(&mut x, &alice(), "bspwm", Event::Failed)), XError::XStartError);
}
