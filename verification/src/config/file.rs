use crate::config::database::Database;
use crate::config::tls::Tls;
use vstd::prelude::*;

verus! {

/// What a TOML document holds under a key of one of its tables.
#[derive(Debug, PartialEq, Eq)]
pub enum Entry {
    /// The text is no TOML document.
    Unparsed,
    /// The document has no such table, or the table no such key.
    Missing,
    /// A string.
    Text(String),
    /// An integer.
    Integer(i64),
    /// A value of any other type.
    Other,
}

/// An entry as a mathematical value.
pub enum EntryView {
    Unparsed,
    Missing,
    Text(Seq<char>),
    Integer(int),
    Other,
}

/// The nine entries that the configuration is read from.
#[derive(Debug)]
pub struct Entries {
    pub host: Entry,
    pub port: Entry,
    pub db_type: Entry,
    pub path: Entry,
    pub max_connections: Entry,
    pub min_connections: Entry,
    pub tls_enabled: Entry,
    pub cert_path: Entry,
    pub key_path: Entry,
}

/// Where the server listens, as the file names it.
#[derive(Debug)]
pub struct Server {
    pub host: String,
    pub port: u16,
}

/// The configuration that is read from one TOML file.
#[derive(Debug)]
pub struct Config {
    pub server: Server,
    pub database: Database,
    pub tls: Tls,
}

/// Why a file gives no configuration.
#[derive(Debug, Clone, Copy, PartialEq, Eq, Structural)]
pub enum FileError {
    /// The text is no TOML document.
    Unparsed,
    /// A table or a key is not there.
    Missing,
    /// A number does not fit its setting.
    OutOfRange,
}

/// What `toml::from_str` and two steps of `toml::Value::get` find in a text
/// under `key` of `table`.
pub uninterp spec fn toml_entry(content: Seq<char>, table: Seq<char>, key: Seq<char>) -> EntryView;

impl View for Entry {
    type V = EntryView;

    open spec fn view(&self) -> EntryView {
        match self {
            Entry::Unparsed => EntryView::Unparsed,
            Entry::Missing => EntryView::Missing,
            Entry::Text(text) => EntryView::Text(text@),
            Entry::Integer(number) => EntryView::Integer(*number as int),
            Entry::Other => EntryView::Other,
        }
    }
}

/// Calls `toml::from_str` for a `toml::Value` and `toml::Value::get` with
/// the table's name and then the key, and tells the variants of what it
/// finds apart.
#[verifier::external_body]
fn lookup(content: &str, table: &str, key: &str) -> (entry: Entry)
    ensures
        entry@ == toml_entry(content@, table@, key@),
{
    let document = match toml::from_str::<toml::Value>(content) {
        Ok(document) => document,
        Err(_) => return Entry::Unparsed,
    };
    let found = match document.get(table) { Some(inner) => inner.get(key), None => None };
    match found {
        None => Entry::Missing,
        Some(toml::Value::String(text)) => Entry::Text(text.clone()),
        Some(toml::Value::Integer(number)) => Entry::Integer(*number),
        Some(_) => Entry::Other,
    }
}

/// The text that an entry sets, or the default where it holds no string;
/// no text where the entry is not there.
pub open spec fn text_setting(entry: EntryView, default: Seq<char>) -> Result<Seq<char>, FileError> {
    match entry {
        EntryView::Unparsed => Err(FileError::Unparsed),
        EntryView::Missing => Err(FileError::Missing),
        EntryView::Text(text) => Ok(text),
        _ => Ok(default),
    }
}

/// The number that an entry sets, or the default where it holds no integer;
/// no number where the entry is not there or the number lies outside
/// `0..=max`.
pub open spec fn number_setting(entry: EntryView, default: int, max: int) -> Result<int, FileError> {
    match entry {
        EntryView::Unparsed => Err(FileError::Unparsed),
        EntryView::Missing => Err(FileError::Missing),
        EntryView::Integer(number) => if 0 <= number <= max {
            Ok(number)
        } else {
            Err(FileError::OutOfRange)
        },
        _ => Ok(default),
    }
}

fn text_or(entry: Entry, default: &str) -> (r: Result<String, FileError>)
    ensures
        match text_setting(entry@, default@) {
            Ok(text) => r matches Ok(t) && t@ == text,
            Err(e) => r == Err::<String, FileError>(e),
        },
{
    match entry {
        Entry::Unparsed => Err(FileError::Unparsed),
        Entry::Missing => Err(FileError::Missing),
        Entry::Text(text) => Ok(text),
        _ => Ok(default.to_owned()),
    }
}

fn number_or(entry: Entry, default: u32, max: u32) -> (r: Result<u32, FileError>)
    requires
        default <= max,
    ensures
        match number_setting(entry@, default as int, max as int) {
            Ok(number) => r == Ok::<u32, FileError>(number as u32) && number == number as u32,
            Err(e) => r == Err::<u32, FileError>(e),
        },
{
    match entry {
        Entry::Unparsed => Err(FileError::Unparsed),
        Entry::Missing => Err(FileError::Missing),
        Entry::Integer(number) => {
            if 0 <= number && number <= max as i64 {
                Ok(number as u32)
            } else {
                Err(FileError::OutOfRange)
            }
        },
        _ => Ok(default),
    }
}

impl Entries {
    /// The entries as mathematical values, in the order of the fields.
    pub open spec fn views(&self) -> Seq<EntryView> {
        seq![
            self.host@,
            self.port@,
            self.db_type@,
            self.path@,
            self.max_connections@,
            self.min_connections@,
            self.tls_enabled@,
            self.cert_path@,
            self.key_path@,
        ]
    }

    /// The entries that a text holds under the keys of the tables `server`,
    /// `database` and `tls`.
    pub open spec fn of(content: Seq<char>) -> Seq<EntryView> {
        seq![
            toml_entry(content, "server"@, "host"@),
            toml_entry(content, "server"@, "port"@),
            toml_entry(content, "database"@, "db_type"@),
            toml_entry(content, "database"@, "path"@),
            toml_entry(content, "database"@, "max_connections"@),
            toml_entry(content, "database"@, "min_connections"@),
            toml_entry(content, "tls"@, "enabled"@),
            toml_entry(content, "tls"@, "cert_path"@),
            toml_entry(content, "tls"@, "key_path"@),
        ]
    }

    /// Looks the nine entries up in a text.
    pub fn read(content: &str) -> (entries: Entries)
        ensures
            entries.views() == Entries::of(content@),
    {
        Entries {
            host: lookup(content, "server", "host"),
            port: lookup(content, "server", "port"),
            db_type: lookup(content, "database", "db_type"),
            path: lookup(content, "database", "path"),
            max_connections: lookup(content, "database", "max_connections"),
            min_connections: lookup(content, "database", "min_connections"),
            tls_enabled: lookup(content, "tls", "enabled"),
            cert_path: lookup(content, "tls", "cert_path"),
            key_path: lookup(content, "tls", "key_path"),
        }
    }
}

/// A configuration as a mathematical value, in the order of the entries.
pub struct ConfigView {
    pub host: Seq<char>,
    pub port: int,
    pub db_type: Seq<char>,
    pub path: Seq<char>,
    pub max_connections: int,
    pub min_connections: int,
    pub tls_enabled: Seq<char>,
    pub cert_path: Seq<char>,
    pub key_path: Seq<char>,
}

/// The configuration that nine entries give. Every entry must be there. One
/// that holds a value of another type than its setting's gives the default:
/// `127.0.0.1` and 8081, `sqlite` in `db.sqlite` with 3 to 100 connections,
/// `rustls-0_23` with `cert.pem` and `key.pem`. The first entry that fails,
/// in the order of the fields, names the error.
pub open spec fn configured(entries: Seq<EntryView>) -> Result<ConfigView, FileError>
    recommends
        entries.len() == 9,
{
    match text_setting(entries[0], "127.0.0.1"@) {
        Err(e) => Err(e),
        Ok(host) => match number_setting(entries[1], 8081, u16::MAX as int) {
            Err(e) => Err(e),
            Ok(port) => match text_setting(entries[2], "sqlite"@) {
                Err(e) => Err(e),
                Ok(db_type) => match text_setting(entries[3], "db.sqlite"@) {
                    Err(e) => Err(e),
                    Ok(path) => match number_setting(entries[4], 100, u32::MAX as int) {
                        Err(e) => Err(e),
                        Ok(max_connections) => match number_setting(
                            entries[5],
                            3,
                            u32::MAX as int,
                        ) {
                            Err(e) => Err(e),
                            Ok(min_connections) => match text_setting(entries[6], "rustls-0_23"@) {
                                Err(e) => Err(e),
                                Ok(tls_enabled) => match text_setting(entries[7], "cert.pem"@) {
                                    Err(e) => Err(e),
                                    Ok(cert_path) => match text_setting(entries[8], "key.pem"@) {
                                        Err(e) => Err(e),
                                        Ok(key_path) => Ok(
                                            ConfigView {
                                                host,
                                                port,
                                                db_type,
                                                path,
                                                max_connections,
                                                min_connections,
                                                tls_enabled,
                                                cert_path,
                                                key_path,
                                            },
                                        ),
                                    },
                                },
                            },
                        },
                    },
                },
            },
        },
    }
}

impl View for Config {
    type V = ConfigView;

    open spec fn view(&self) -> ConfigView {
        ConfigView {
            host: self.server.host@,
            port: self.server.port as int,
            db_type: self.database.db_type@,
            path: self.database.path@,
            max_connections: self.database.max_connections as int,
            min_connections: self.database.min_connections as int,
            tls_enabled: self.tls.enabled@,
            cert_path: self.tls.cert_path@,
            key_path: self.tls.key_path@,
        }
    }
}

impl Config {
    /// The configuration that the entries give.
    pub fn from_entries(entries: Entries) -> (r: Result<Config, FileError>)
        ensures
            match configured(entries.views()) {
                Ok(config) => r matches Ok(c) && c@ == config,
                Err(e) => r == Err::<Config, FileError>(e),
            },
    {
        let host = text_or(entries.host, "127.0.0.1")?;
        let port = number_or(entries.port, 8081, 65535)?;
        let db_type = text_or(entries.db_type, "sqlite")?;
        let path = text_or(entries.path, "db.sqlite")?;
        let max_connections = number_or(entries.max_connections, 100, u32::MAX)?;
        let min_connections = number_or(entries.min_connections, 3, u32::MAX)?;
        let enabled = text_or(entries.tls_enabled, "rustls-0_23")?;
        let cert_path = text_or(entries.cert_path, "cert.pem")?;
        let key_path = text_or(entries.key_path, "key.pem")?;
        Ok(
            Config {
                server: Server { host, port: port as u16 },
                database: Database { db_type, path, max_connections, min_connections },
                tls: Tls { enabled, cert_path, key_path },
            },
        )
    }

    /// The configuration that a TOML text gives.
    pub fn parse(content: &str) -> (r: Result<Config, FileError>)
        ensures
            match configured(Entries::of(content@)) {
                Ok(config) => r matches Ok(c) && c@ == config,
                Err(e) => r == Err::<Config, FileError>(e),
            },
    {
        Config::from_entries(Entries::read(content))
    }
}

} // verus!
