//! Program-wide options: the executable and instance names, the log level,
//! and where configuration files live.
use crate::text::{join, spec_join, str_eq};
use vstd::prelude::*;
use vstd::string::*;

verus! {

/// How much is logged.
#[derive(Clone, Copy, Debug, PartialEq, Eq, Structural)]
pub enum LogLevel {
    Off,
    Error,
    Warn,
    Info,
    Debug,
    Trace,
}

/// The command line: `--id` names the instance (default "def"),
/// `--log-level` sets the log level (default "info"), `--version` prints the
/// build and exits, `--stdout` also logs to standard output.
pub struct Opts {
    pub id: String,
    pub log_level: String,
    pub version: bool,
    pub stdout: bool,
}

impl Opts {
    /// Empty options: no id, no log level, no flags.
    pub fn default() -> (o: Opts)
        ensures
            o.id@ == Seq::<char>::empty(),
            o.log_level@ == Seq::<char>::empty(),
            !o.version,
            !o.stdout,
    {
        Opts { id: String::new(), log_level: String::new(), version: false, stdout: false }
    }
}

/// The options the program runs with.
pub struct Options {
    /// File name of the running executable.
    pub exe: String,
    /// Name of this instance.
    pub id: String,
    pub log_level: LogLevel,
    /// Whether to log to standard output too.
    pub stdout: bool,
}

/// The log level named `s`; any name but "error", "warn", "info", "debug"
/// and "trace" gives `Info`.
pub open spec fn spec_log_level(s: Seq<char>) -> LogLevel {
    if s == "error"@ {
        LogLevel::Error
    } else if s == "warn"@ {
        LogLevel::Warn
    } else if s == "info"@ {
        LogLevel::Info
    } else if s == "debug"@ {
        LogLevel::Debug
    } else if s == "trace"@ {
        LogLevel::Trace
    } else {
        LogLevel::Info
    }
}

/// Each level's lowercase name gives that level; a name that is none of
/// them gives `Info`, and no name gives `Off`.
pub proof fn lemma_log_level_names(s: Seq<char>)
    ensures
        spec_log_level("error"@) == LogLevel::Error,
        spec_log_level("warn"@) == LogLevel::Warn,
        spec_log_level("info"@) == LogLevel::Info,
        spec_log_level("debug"@) == LogLevel::Debug,
        spec_log_level("trace"@) == LogLevel::Trace,
        s != "error"@ && s != "warn"@ && s != "debug"@ && s != "trace"@ ==> spec_log_level(s)
            == LogLevel::Info,
        spec_log_level(s) != LogLevel::Off,
{
    reveal_strlit("error");
    reveal_strlit("warn");
    reveal_strlit("info");
    reveal_strlit("debug");
    reveal_strlit("trace");
    assert("error"@[0] != "warn"@[0] && "info"@.len() != "error"@.len());
    assert("error"@[0] != "debug"@[0] && "error"@[0] != "trace"@[0]);
    assert("debug"@[0] != "trace"@[0] && "warn"@[0] != "info"@[0]);
}

/// The log level named `s` (see [`spec_log_level`]).
pub fn parse_log_level(s: &str) -> (l: LogLevel)
    ensures
        l == spec_log_level(s@),
{
    if str_eq(s, "error") {
        LogLevel::Error
    } else if str_eq(s, "warn") {
        LogLevel::Warn
    } else if str_eq(s, "info") {
        LogLevel::Info
    } else if str_eq(s, "debug") {
        LogLevel::Debug
    } else if str_eq(s, "trace") {
        LogLevel::Trace
    } else {
        LogLevel::Info
    }
}

impl Options {
    /// The options of a program whose executable is named `exe`, run with the
    /// command line `opts`.
    pub fn new(opts: Opts, exe: String) -> (o: Options)
        ensures
            o.exe@ == exe@,
            o.id@ == opts.id@,
            o.log_level == spec_log_level(opts.log_level@),
            o.stdout == opts.stdout,
    {
        let log_level = parse_log_level(opts.log_level.as_str());
        Options { exe, id: opts.id, log_level, stdout: opts.stdout }
    }

    /// The options before the command line is read: no names, level `Info`,
    /// no standard output.
    pub fn initial() -> (o: Options)
        ensures
            o.exe@ == Seq::<char>::empty(),
            o.id@ == Seq::<char>::empty(),
            o.log_level == LogLevel::Info,
            !o.stdout,
    {
        Options { exe: String::new(), id: String::new(), log_level: LogLevel::Info, stdout: false }
    }
}

/// The executable's file name.
pub fn exe_name(options: &Options) -> (s: String)
    ensures
        s@ == options.exe@,
{
    options.exe.clone()
}

/// The instance name.
pub fn proc_name(options: &Options) -> (s: String)
    ensures
        s@ == options.id@,
{
    options.id.clone()
}

/// The log level.
pub fn log_lvl(options: &Options) -> (l: LogLevel)
    ensures
        l == options.log_level,
{
    options.log_level
}

/// Whether to log to standard output.
pub fn stdout(options: &Options) -> (b: bool)
    ensures
        b == options.stdout,
{
    options.stdout
}

/// The configuration directory: the value of `CONFIGURATION_DIRECTORY` when
/// set, "/etc/tfc/" otherwise.
pub fn config_directory(env_value: Option<String>) -> (s: String)
    ensures
        match env_value {
            Some(v) => s@ == v@,
            None => s@ == "/etc/tfc/"@,
        },
{
    match env_value {
        Some(v) => v,
        None => String::from_str("/etc/tfc/"),
    }
}

/// The configuration file `<dir>/<exe>/<id>/<filename>.<extension>`.
pub fn make_config_file_name(
    config_dir: &str,
    options: &Options,
    filename: &str,
    extension: &str,
) -> (s: String)
    ensures
        s@ == spec_join(
            spec_join(spec_join(config_dir@, options.exe@), options.id@),
            filename@ + "."@ + extension@,
        ),
{
    let d1 = join(config_dir, options.exe.as_str());
    let d2 = join(d1.as_str(), options.id.as_str());
    let f = String::from_str(filename);
    let f = f.concat(".");
    let f = f.concat(extension);
    join(d2.as_str(), f.as_str())
}

} // verus!
