//! Settings of the manager, and how they are read from TOML.

use vstd::prelude::*;
use crate::error::ErrorKind;

verus! {

/// What the manager is configured with.
#[derive(Debug)]
pub struct Config {
    /// The session that is started after login.
    pub de: String,
    /// The virtual terminal of the login prompt.
    pub logtty: u16,
    /// The virtual terminal of the display server.
    pub displaytty: u16,
}

impl Default for Config {
    fn default() -> (r: Self)
        ensures
            r.de@ == "bspwm"@,
            r.logtty == 2,
            r.displaytty == 3,
    {
        Config { de: "bspwm".to_owned(), logtty: 2, displaytty: 3 }
    }
}

/// What a document holds under one key.
#[derive(Debug)]
pub enum Setting {
    /// The key is not there.
    Missing,
    Text(String),
    Integer(i64),
    /// A value of any other kind.
    Other,
}

/// A `Setting` as plain values.
pub enum SettingView {
    Missing,
    Text(Seq<char>),
    Integer(i64),
    Other,
}

impl View for Setting {
    type V = SettingView;

    open spec fn view(&self) -> SettingView {
        match self {
            Setting::Missing => SettingView::Missing,
            Setting::Text(s) => SettingView::Text(s@),
            Setting::Integer(n) => SettingView::Integer(*n),
            Setting::Other => SettingView::Other,
        }
    }
}

/// `toml::map::Map`, the table of a parsed document, carried through as it
/// is.
#[verifier::external_type_specification]
#[verifier::external_body]
#[verifier::reject_recursive_types(K)]
#[verifier::reject_recursive_types(V)]
pub struct ExTomlMap<K, V>(toml::map::Map<K, V>);

/// `toml::Value`, what a table holds under a key.
#[verifier::external_type_specification]
#[verifier::external_body]
pub struct ExTomlValue(toml::Value);

/// `toml::de::Error`, the parser's report of what is wrong with a document.
#[verifier::external_type_specification]
#[verifier::external_body]
pub struct ExTomlError(toml::de::Error);

/// The top-level keys of a parsed document, each with its value.
pub uninterp spec fn table_entries(table: toml::Table) -> Map<Seq<char>, SettingView>;

/// The top-level keys of the document that `text` is, each with its value;
/// `None` where `text` is no TOML document.
pub uninterp spec fn toml_document(text: Seq<char>) -> Option<Map<Seq<char>, SettingView>>;

/// What `entries` holds under `key`.
pub open spec fn lookup(entries: Map<Seq<char>, SettingView>, key: Seq<char>) -> SettingView {
    if entries.contains_key(key) {
        entries[key]
    } else {
        SettingView::Missing
    }
}

/// Parses a TOML document with `toml::from_str`, into a `toml::Table`. The
/// result is the document that `toml_document` names; an error means that
/// there is none.
#[verifier::external_body]
fn parse_document(text: &str) -> (r: Result<toml::Table, toml::de::Error>)
    ensures
        match r {
            Ok(table) => toml_document(text@) == Some(table_entries(table)),
            Err(_) => toml_document(text@) is None,
        },
{
    toml::from_str::<toml::Table>(text)
}

/// Looks `key` up with `toml::map::Map::get` and tells a string and an
/// integer from the other kinds of `toml::Value`.
#[verifier::external_body]
fn table_get(table: &toml::Table, key: &str) -> (r: Setting)
    ensures
        r@ == lookup(table_entries(*table), key@),
{
    match table.get(key) {
        None => Setting::Missing,
        Some(toml::Value::String(s)) => Setting::Text(s.clone()),
        Some(toml::Value::Integer(n)) => Setting::Integer(*n),
        Some(_) => Setting::Other,
    }
}

/// The name of a session under `setting`: the text that is there, `default`
/// where nothing is, and nothing where something else is.
pub open spec fn text_setting(setting: SettingView, default: Seq<char>) -> Option<Seq<char>> {
    match setting {
        SettingView::Missing => Some(default),
        SettingView::Text(s) => Some(s),
        _ => None,
    }
}

/// The terminal under `setting`: the integer that is there if it fits,
/// `default` where nothing is, and nothing where something else is.
pub open spec fn terminal_setting(setting: SettingView, default: u16) -> Option<u16> {
    match setting {
        SettingView::Missing => Some(default),
        SettingView::Integer(n) => if 0 <= n <= u16::MAX {
            Some(n as u16)
        } else {
            None
        },
        _ => None,
    }
}

/// `r` is the configuration that the three settings make: each setting that
/// is missing takes its default, and one of the wrong kind, or a terminal
/// out of range, makes the whole a `ConfigLoadError`.
pub open spec fn is_config_of(
    de: SettingView,
    logtty: SettingView,
    displaytty: SettingView,
    r: Result<Config, ErrorKind>,
) -> bool {
    match r {
        Ok(config) => {
            &&& text_setting(de, "bspwm"@) == Some(config.de@)
            &&& terminal_setting(logtty, 2) == Some(config.logtty)
            &&& terminal_setting(displaytty, 3) == Some(config.displaytty)
        },
        Err(e) => {
            &&& e == ErrorKind::ConfigLoadError
            &&& (text_setting(de, "bspwm"@) is None || terminal_setting(logtty, 2) is None
                || terminal_setting(displaytty, 3) is None)
        },
    }
}

fn terminal(setting: Setting, default: u16) -> (r: Option<u16>)
    ensures
        r == terminal_setting(setting@, default),
{
    match setting {
        Setting::Missing => Some(default),
        Setting::Integer(n) => if 0 <= n && n <= 65535 {
            Some(n as u16)
        } else {
            None
        },
        _ => None,
    }
}

impl Config {
    /// The configuration that the settings found under `de`, `logtty` and
    /// `displaytty` make.
    pub fn from_settings(de: Setting, logtty: Setting, displaytty: Setting) -> (r: Result<
        Config,
        ErrorKind,
    >)
        ensures
            is_config_of(de@, logtty@, displaytty@, r),
    {
        let base = Config::default();
        let de = match de {
            Setting::Missing => base.de,
            Setting::Text(name) => name,
            _ => {
                return Err(ErrorKind::ConfigLoadError);
            },
        };
        let logtty = match terminal(logtty, base.logtty) {
            Some(tty) => tty,
            None => {
                return Err(ErrorKind::ConfigLoadError);
            },
        };
        let displaytty = match terminal(displaytty, base.displaytty) {
            Some(tty) => tty,
            None => {
                return Err(ErrorKind::ConfigLoadError);
            },
        };
        Ok(Config { de, logtty, displaytty })
    }
}

/// Reads the configuration from the contents of its file. What is no TOML
/// document is a `ConfigLoadError`; of a document the keys `de`, `logtty`
/// and `displaytty` count, and the others are passed over.
pub fn config_from_file(contents: &str) -> (r: Result<Config, ErrorKind>)
    ensures
        match toml_document(contents@) {
            None => r matches Err(e) && e == ErrorKind::ConfigLoadError,
            Some(entries) => is_config_of(
                lookup(entries, "de"@),
                lookup(entries, "logtty"@),
                lookup(entries, "displaytty"@),
                r,
            ),
        },
{
    match parse_document(contents) {
        Err(_) => Err(ErrorKind::ConfigLoadError),
        Ok(table) => Config::from_settings(
            table_get(&table, "de"),
            table_get(&table, "logtty"),
            table_get(&table, "displaytty"),
        ),
    }
}

} // verus!
