//! Logging configuration: what to log and where to send it.
//!
//! The library only decides; it turns a [`LogConfig`] into the [`LogPlan`]
//! that the host application hands to its tracing backend.

use vstd::prelude::*;

verus! {

/// Abstract value of a [`LogConfig`].
pub struct LogConfigV {
    pub filter: Seq<char>,
    pub rolling_file: Option<(Seq<char>, Seq<char>)>,
}

/// A logging configuration: a filter directive, and optionally a rolling-file
/// destination given as a directory and a file-name prefix.
#[derive(Debug, Clone)]
pub struct LogConfig {
    filter: String,
    rolling_file: Option<(String, String)>,
}

impl View for LogConfig {
    type V = LogConfigV;

    closed spec fn view(&self) -> LogConfigV {
        LogConfigV {
            filter: self.filter@,
            rolling_file: match self.rolling_file {
                Some(pair) => Some((pair.0@, pair.1@)),
                None => None,
            },
        }
    }
}

impl LogConfig {
    /// A configuration with the given filter and destination.
    pub fn new(filter: String, rolling_file: Option<(String, String)>) -> (c: LogConfig)
        ensures
            c@.filter == filter@,
            match rolling_file {
                Some(pair) => c@.rolling_file == Some((pair.0@, pair.1@)),
                None => c@.rolling_file is None,
            },
    {
        LogConfig { filter, rolling_file }
    }

    /// The filter directive.
    pub fn filter(&self) -> (f: &String)
        ensures
            f@ == self@.filter,
    {
        &self.filter
    }

    /// The rolling-file destination, if any.
    pub fn rolling_file(&self) -> (r: &Option<(String, String)>)
        ensures
            match *r {
                Some(pair) => self@.rolling_file == Some((pair.0@, pair.1@)),
                None => self@.rolling_file is None,
            },
    {
        &self.rolling_file
    }
}

impl Default for LogConfig {
    /// Log at `info` to stdout.
    fn default() -> (c: Self)
        ensures
            c@.filter == "info"@,
            c@.rolling_file is None,
    {
        LogConfig { filter: "info".to_owned(), rolling_file: None }
    }
}

/// Where log lines go.
pub enum LogSink {
    /// The process's stdout.
    Stdout,
    /// A daily-rolling file under `directory`, file names starting with
    /// `prefix`.
    DailyFile { directory: String, prefix: String },
}

/// What the host application should set its tracing backend up with: the
/// filter directive, the destination, and whether to colour the output.
pub struct LogPlan {
    pub filter: String,
    pub sink: LogSink,
    pub ansi: bool,
}

/// The plan a configuration calls for: its filter verbatim; stdout with
/// colours when no rolling file is configured, else that file without them.
pub open spec fn plan_matches(config: LogConfigV, plan: LogPlan) -> bool {
    &&& plan.filter@ == config.filter
    &&& match (config.rolling_file, plan.sink) {
        (Option::None, LogSink::Stdout) => plan.ansi,
        (Option::Some(pair), LogSink::DailyFile { directory, prefix }) => {
            &&& directory@ == pair.0
            &&& prefix@ == pair.1
            &&& !plan.ansi
        },
        _ => false,
    }
}

/// The plan for `config`.
pub fn init_log(config: LogConfig) -> (plan: LogPlan)
    ensures
        plan_matches(config@, plan),
{
    match config.rolling_file {
        None => LogPlan { filter: config.filter, sink: LogSink::Stdout, ansi: true },
        Some(pair) => LogPlan {
            filter: config.filter,
            sink: LogSink::DailyFile { directory: pair.0, prefix: pair.1 },
            ansi: false,
        },
    }
}

/// The plan that logs to stdout under the given filter.
pub fn init_log_filter(filter: &str) -> (plan: LogPlan)
    ensures
        plan.filter@ == filter@,
        plan.sink is Stdout,
        plan.ansi,
{
    init_log(LogConfig { filter: filter.to_owned(), rolling_file: None })
}

/// The plan that logs under the given filter into a daily-rolling file.
pub fn init_log_file(filter: &str, directory: &str, file_name_prefix: &str) -> (plan: LogPlan)
    ensures
        plan.filter@ == filter@,
        plan.sink matches LogSink::DailyFile { directory: d, prefix: p } && d@ == directory@
            && p@ == file_name_prefix@,
        !plan.ansi,
{
    init_log(
        LogConfig {
            filter: filter.to_owned(),
            rolling_file: Some((directory.to_owned(), file_name_prefix.to_owned())),
        },
    )
}

} // verus!
