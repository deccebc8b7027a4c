use vstd::prelude::*;
use vstd::string::StringExecFns;

use crate::logger::LogEventModel;
use crate::logger::Logger;

verus! {

/// How often the sink rotates the log file it writes.
#[derive(Clone, Copy, Debug, PartialEq, Eq, Structural)]
pub enum LogRotation {
    Daily,
    Hourly,
    Never,
}

/// Configuration of the observability sink. The directory is a single
/// injected value — the host resolves it against its data directory once
/// at startup — rather than something re-derived per call.
pub struct LogConfig {
    pub log_dir: String,
    pub file_name_prefix: String,
    pub max_level: String,
    pub enable_console: bool,
    pub enable_file: bool,
    pub rotation: LogRotation,
}

/// Spec-level image of a log configuration.
#[verifier::ext_equal]
pub ghost struct LogConfigModel {
    pub log_dir: Seq<char>,
    pub file_name_prefix: Seq<char>,
    pub max_level: Seq<char>,
    pub enable_console: bool,
    pub enable_file: bool,
    pub rotation: LogRotation,
}

impl View for LogConfig {
    type V = LogConfigModel;

    open spec fn view(&self) -> LogConfigModel {
        LogConfigModel {
            log_dir: self.log_dir@,
            file_name_prefix: self.file_name_prefix@,
            max_level: self.max_level@,
            enable_console: self.enable_console,
            enable_file: self.enable_file,
            rotation: self.rotation,
        }
    }
}

/// The default configuration: daily-rotated files named after the
/// application, console and file output both on, information level.
pub open spec fn default_config() -> LogConfigModel {
    LogConfigModel {
        log_dir: "logs"@,
        file_name_prefix: "vocab-flashcards"@,
        max_level: "info"@,
        enable_console: true,
        enable_file: true,
        rotation: LogRotation::Daily,
    }
}

impl Default for LogConfig {
    fn default() -> (c: LogConfig)
        ensures
            c@ == default_config(),
    {
        let c = LogConfig {
            log_dir: String::from_str("logs"),
            file_name_prefix: String::from_str("vocab-flashcards"),
            max_level: String::from_str("info"),
            enable_console: true,
            enable_file: true,
            rotation: LogRotation::Daily,
        };
        proof {
            assert(c@ =~= default_config());
        }
        c
    }
}

/// Starts the logging lifecycle with the default configuration: the
/// effective configuration for the sink, and a fresh handle to record on.
pub fn init_logging() -> (r: (LogConfig, Logger))
    ensures
        r.0@ == default_config(),
        r.1@ == Seq::<LogEventModel>::empty(),
{
    init_logging_with_config(LogConfig::default())
}

/// Starts the logging lifecycle with the given configuration.
pub fn init_logging_with_config(config: LogConfig) -> (r: (LogConfig, Logger))
    ensures
        r.0 == config,
        r.1@ == Seq::<LogEventModel>::empty(),
{
    (config, Logger::new())
}

/// The directory the default configuration writes logs under.
pub fn get_log_directory() -> (r: String)
    ensures
        r@ == default_config().log_dir,
{
    LogConfig::default().log_dir
}

/// The file the default configuration writes today's log to; the date is
/// supplied by the host's clock.
pub fn get_current_log_file(date: &str) -> (r: String)
    ensures
        r@ == default_config().log_dir + "/"@ + default_config().file_name_prefix + "."@ + date@
            + ".log"@,
{
    let config = LogConfig::default();
    config.log_dir.concat("/").concat(config.file_name_prefix.as_str()).concat(".").concat(
        date,
    ).concat(".log")
}

/// The modification time below which a log file counts as expired when
/// the host keeps `keep_days` days of logs, measured in seconds.
pub open spec fn retention_cutoff(now_secs: nat, keep_days: nat) -> int {
    if keep_days * 86400 <= now_secs {
        now_secs - keep_days * 86400
    } else {
        0
    }
}

/// Computes the retention cutoff; files modified before it are removed by
/// the cleanup pass.
pub fn log_retention_cutoff(now_secs: u64, keep_days: u64) -> (r: u64)
    ensures
        r == retention_cutoff(now_secs as nat, keep_days as nat),
{
    match keep_days.checked_mul(86400) {
        Some(span) => {
            if span <= now_secs {
                now_secs - span
            } else {
                0
            }
        },
        None => 0,
    }
}

} // verus!
