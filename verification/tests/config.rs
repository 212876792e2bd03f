use cadmium::config::{config_from_file, Config, Setting};
use cadmium::dbus::{split_assignment, split_lines, start_dbus};
use cadmium::error::ErrorKind;

fn bytes(text: &str) -> Vec<u8> {
    text.as_bytes().to_vec()
}

fn pair(name: &str, value: &str) -> (Vec<u8>, Vec<u8>) {
    (bytes(name), bytes(value))
}

fn fields(config: Result<Config, ErrorKind>) -> Result<(String, u16, u16), ErrorKind> {
    config.map(|c| (c.de, c.logtty, c.displaytty))
}

fn settings(de: &str, logtty: u16, displaytty: u16) -> Result<(String, u16, u16), ErrorKind> {
    Ok((de.to_string(), logtty, displaytty))
}

#[test]
fn config_defaults() {
    let config = Config::default();
    assert_eq!(config.de, "bspwm");
    assert_eq!(config.logtty, 2);
    assert_eq!(config.displaytty, 3);
}

#[test]
fn config_from_settings() {
    assert_eq!(
        fields(Config::from_settings(Setting::Missing, Setting::Missing, Setting::Missing)),
        settings("bspwm", 2, 3)
    );
    assert_eq!(
        fields(Config::from_settings(
            Setting::Text("i3".to_string()),
            Setting::Integer(0),
            Setting::Integer(65535)
        )),
        settings("i3", 0, 65535)
    );
    for bad in [Setting::Integer(65536), Setting::Integer(-1), Setting::Other] {
        assert_eq!(
            fields(Config::from_settings(Setting::Missing, bad, Setting::Missing)),
            Err(ErrorKind::ConfigLoadError)
        );
    }
    assert_eq!(
        fields(Config::from_settings(
            Setting::Missing,
            Setting::Missing,
            Setting::Text("3".to_string())
        )),
        Err(ErrorKind::ConfigLoadError)
    );
    assert_eq!(
        fields(Config::from_settings(Setting::Integer(1), Setting::Missing, Setting::Missing)),
        Err(ErrorKind::ConfigLoadError)
    );
    assert_eq!(
        fields(Config::from_settings(Setting::Other, Setting::Missing, Setting::Missing)),
        Err(ErrorKind::ConfigLoadError)
    );
}

#[test]
fn config_from_documents() {
    assert_eq!(fields(config_from_file("")), settings("bspwm", 2, 3));
    assert_eq!(
        fields(config_from_file("de = \"i3\"\nlogtty = 4\ndisplaytty = 5\n")),
        settings("i3", 4, 5)
    );
    assert_eq!(fields(config_from_file("displaytty = 9")), settings("bspwm", 2, 9));
    assert_eq!(
        fields(config_from_file("# a comment\nde = 'sway'\ntheme = \"dark\"\n[other]\nlogtty = 1\n")),
        settings("sway", 2, 3)
    );
}

#[test]
fn config_from_bad_documents() {
    for text in [
        "de = ",
        "this is not toml",
        "de = 3",
        "logtty = 70000",
        "logtty = -1",
        "logtty = \"2\"",
        "displaytty = 2.5",
        "displaytty = true",
        "de = [\"a\"]",
        "logtty = 1\nlogtty = 2",
    ] {
        assert_eq!(fields(config_from_file(text)), Err(ErrorKind::ConfigLoadError), "{}", text);
    }
}

#[test]
fn lines_of_output() {
    assert_eq!(split_lines(&bytes("")), Vec::<Vec<u8>>::new());
    assert_eq!(split_lines(&bytes("a")), vec![bytes("a")]);
    assert_eq!(split_lines(&bytes("a\n")), vec![bytes("a")]);
    assert_eq!(split_lines(&bytes("a\nb")), vec![bytes("a"), bytes("b")]);
    assert_eq!(split_lines(&bytes("a\r\nb\r\n")), vec![bytes("a"), bytes("b")]);
    assert_eq!(split_lines(&bytes("\n")), vec![bytes("")]);
    assert_eq!(split_lines(&bytes("\n\n")), vec![bytes(""), bytes("")]);
    assert_eq!(split_lines(&bytes("a\rb\n")), vec![bytes("a\rb")]);
    assert_eq!(split_lines(&bytes("a\r")), vec![bytes("a\r")]);
    assert_eq!(split_lines(&bytes("a\r\r\n")), vec![bytes("a\r")]);
    for text in ["x=1\ny=2\n", "\r\n\r\nz", "one\r", "a\n\nb\r\n\r", "\r", "k=v\n\r\n"] {
        let expected: Vec<Vec<u8>> = text.lines().map(|l| l.as_bytes().to_vec()).collect();
        assert_eq!(split_lines(&bytes(text)), expected, "{:?}", text);
    }
}

#[test]
fn assignments() {
    assert_eq!(split_assignment(&bytes("A=b")), Some(pair("A", "b")));
    assert_eq!(split_assignment(&bytes("A=b=c")), Some(pair("A", "b=c")));
    assert_eq!(split_assignment(&bytes("=")), Some(pair("", "")));
    assert_eq!(split_assignment(&bytes("A=")), Some(pair("A", "")));
    assert_eq!(split_assignment(&bytes("=b")), Some(pair("", "b")));
    assert_eq!(split_assignment(&bytes("Ab")), None);
    assert_eq!(split_assignment(&bytes("")), None);
}

#[test]
fn launcher_output() {
    let output = "DBUS_SESSION_BUS_ADDRESS=unix:path=/tmp/dbus-x,guid=00ff\nDBUS_SESSION_BUS_PID=4711\n";
    assert_eq!(
        start_dbus(&bytes(output)),
        Ok(vec![
            pair("DBUS_SESSION_BUS_ADDRESS", "unix:path=/tmp/dbus-x,guid=00ff"),
            pair("DBUS_SESSION_BUS_PID", "4711"),
        ])
    );
    assert_eq!(start_dbus(&bytes("")), Ok(Vec::new()));
    assert_eq!(start_dbus(&bytes("A=1\r\nB=2")), Ok(vec![pair("A", "1"), pair("B", "2")]));
}

#[test]
fn launcher_output_with_a_line_that_assigns_nothing() {
    assert_eq!(start_dbus(&bytes("A=1\nnonsense\nB=2\n")), Err(ErrorKind::DBusError));
    assert_eq!(start_dbus(&bytes("\n")), Err(ErrorKind::DBusError));
    assert_eq!(start_dbus(&bytes("A=1\n\n")), Err(ErrorKind::DBusError));
}
