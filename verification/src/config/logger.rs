use crate::text::same_text;
use vstd::prelude::*;

verus! {

/// The severity up to which events are recorded.
#[derive(Debug, Clone, Copy, PartialEq, Eq, Structural)]
pub enum Level {
    Trace,
    Debug,
    Info,
    Warn,
    Error,
}

/// How often the log file is replaced by a fresh one.
#[derive(Debug, Clone, Copy, PartialEq, Eq, Structural)]
pub enum Rotation {
    Minutely,
    Hourly,
    Daily,
    Never,
}

/// Settings of the logger.
#[derive(Debug, Clone)]
pub struct Logger {
    /// Where the log goes: `file` or `stdout`, in either case of letters.
    pub make_writer: String,
    /// Directory of the log files.
    pub directory: String,
    /// What a log file's name starts with.
    pub filename_prefix: String,
    /// What a log file's name ends with.
    pub filename_suffix: String,
    /// The highest level that is recorded.
    pub max_level: String,
    /// How many log files are kept.
    pub max_log_files: usize,
    /// Whether events are written as JSON.
    pub enable_json_formatter: bool,
    /// `minutely`, `hourly`, `daily` or `never`, in either case of letters.
    pub rotation: String,
    /// Whether an event shows its target.
    pub show_target: bool,
    /// Whether an event shows the thread's id.
    pub show_thread_ids: bool,
    /// Whether an event shows the thread's name.
    pub show_thread_names: bool,
    /// Whether an event shows its source file.
    pub show_file_paths: bool,
    /// Whether an event shows its source line.
    pub show_line_number: bool,
    /// Whether an event shows its level.
    pub show_level: bool,
    /// Whether the output is coloured.
    pub show_ansi: bool,
}

/// What `str::to_uppercase` returns for a text.
pub uninterp spec fn uppercase(text: Seq<char>) -> Seq<char>;

/// Calls `str::to_uppercase`.
#[verifier::external_body]
fn to_uppercase(text: &str) -> (r: String)
    ensures
        r@ == uppercase(text@),
{
    text.to_uppercase()
}

/// The level that an upper-case name stands for; an unknown name stands for `Info`.
pub open spec fn level_named(upper: Seq<char>) -> Level {
    if upper == "TRACE"@ {
        Level::Trace
    } else if upper == "DEBUG"@ {
        Level::Debug
    } else if upper == "INFO"@ {
        Level::Info
    } else if upper == "WARN"@ {
        Level::Warn
    } else if upper == "ERROR"@ {
        Level::Error
    } else {
        Level::Info
    }
}

/// The rotation that an upper-case name stands for; an unknown name stands for `Never`.
pub open spec fn rotation_named(upper: Seq<char>) -> Rotation {
    if upper == "MINUTELY"@ {
        Rotation::Minutely
    } else if upper == "HOURLY"@ {
        Rotation::Hourly
    } else if upper == "DAILY"@ {
        Rotation::Daily
    } else {
        Rotation::Never
    }
}

/// The level that the environment's filter asks for: `Trace` where none is
/// set; a level's name in lower or in upper case; `Debug` for anything else.
pub open spec fn level_from_env(filter: Option<Seq<char>>) -> Level {
    match filter {
        None => Level::Trace,
        Some(name) => if name == "trace"@ || name == "TRACE"@ {
            Level::Trace
        } else if name == "debug"@ || name == "DEBUG"@ {
            Level::Debug
        } else if name == "info"@ || name == "INFO"@ {
            Level::Info
        } else if name == "warn"@ || name == "WARN"@ {
            Level::Warn
        } else if name == "error"@ || name == "ERROR"@ {
            Level::Error
        } else {
            Level::Debug
        },
    }
}

/// The level named by a text that is already in upper case.
pub fn level_of(upper: &str) -> (level: Level)
    ensures
        level == level_named(upper@),
{
    if same_text(upper, "TRACE") {
        Level::Trace
    } else if same_text(upper, "DEBUG") {
        Level::Debug
    } else if same_text(upper, "INFO") {
        Level::Info
    } else if same_text(upper, "WARN") {
        Level::Warn
    } else if same_text(upper, "ERROR") {
        Level::Error
    } else {
        Level::Info
    }
}

/// The rotation named by a text that is already in upper case.
pub fn rotation_of(upper: &str) -> (rotation: Rotation)
    ensures
        rotation == rotation_named(upper@),
{
    if same_text(upper, "MINUTELY") {
        Rotation::Minutely
    } else if same_text(upper, "HOURLY") {
        Rotation::Hourly
    } else if same_text(upper, "DAILY") {
        Rotation::Daily
    } else {
        Rotation::Never
    }
}

/// The level to log at, given what the environment's filter variable holds.
pub fn env_level(filter: Option<&str>) -> (level: Level)
    ensures
        level == level_from_env(
            match filter {
                Some(name) => Some(name@),
                None => None,
            },
        ),
{
    match filter {
        None => Level::Trace,
        Some(name) => {
            if same_text(name, "trace") || same_text(name, "TRACE") {
                Level::Trace
            } else if same_text(name, "debug") || same_text(name, "DEBUG") {
                Level::Debug
            } else if same_text(name, "info") || same_text(name, "INFO") {
                Level::Info
            } else if same_text(name, "warn") || same_text(name, "WARN") {
                Level::Warn
            } else if same_text(name, "error") || same_text(name, "ERROR") {
                Level::Error
            } else {
                Level::Debug
            }
        },
    }
}

impl Default for Logger {
    fn default() -> (logger: Logger)
        ensures
            logger.is_default(),
    {
        Logger {
            make_writer: "file".to_owned(),
            directory: "./data/logs".to_owned(),
            filename_prefix: "app".to_owned(),
            filename_suffix: "log".to_owned(),
            max_level: "info".to_owned(),
            max_log_files: 30,
            enable_json_formatter: false,
            rotation: "minutely".to_owned(),
            show_target: false,
            show_thread_ids: true,
            show_thread_names: true,
            show_file_paths: true,
            show_line_number: true,
            show_level: true,
            show_ansi: false,
        }
    }
}

impl Logger {
    /// The settings that hold where the configuration names none: a file
    /// under `./data/logs`, named `app` and `log`, rotated every minute,
    /// thirty files kept, level `info`, plain text without colours, and
    /// everything shown but the target.
    pub open spec fn is_default(&self) -> bool {
        &&& self.make_writer@ == "file"@
        &&& self.directory@ == "./data/logs"@
        &&& self.filename_prefix@ == "app"@
        &&& self.filename_suffix@ == "log"@
        &&& self.max_level@ == "info"@
        &&& self.max_log_files == 30
        &&& !self.enable_json_formatter
        &&& self.rotation@ == "minutely"@
        &&& !self.show_target
        &&& self.show_thread_ids
        &&& self.show_thread_names
        &&& self.show_file_paths
        &&& self.show_line_number
        &&& self.show_level
        &&& !self.show_ansi
    }

    /// The highest level that is recorded: the one that `max_level` names,
    /// whatever the case of its letters, and `Info` where it names none.
    pub fn max_level(&self) -> (level: Level)
        ensures
            level == level_named(uppercase(self.max_level@)),
    {
        let upper = to_uppercase(self.max_level.as_str());
        level_of(upper.as_str())
    }

    /// How often the log file rotates: as `rotation` says, whatever the case
    /// of its letters, and never where it names no rotation.
    pub fn rotation(&self) -> (rotation: Rotation)
        ensures
            rotation == rotation_named(uppercase(self.rotation@)),
    {
        let upper = to_uppercase(self.rotation.as_str());
        rotation_of(upper.as_str())
    }

    /// Whether the log goes to a file rather than to standard output.
    pub fn writes_to_file(&self) -> (to_file: bool)
        ensures
            to_file == (uppercase(self.make_writer@) == "FILE"@),
    {
        let upper = to_uppercase(self.make_writer.as_str());
        same_text(upper.as_str(), "FILE")
    }
}

} // verus!
