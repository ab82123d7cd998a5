//! The program's log: which messages are written, how they read, and where
//! they go.
use vstd::prelude::*;
use vstd::string::*;
use crate::interface::config::Config;
use crate::interface::log_options::{LogOutput, LogVerbosity};
use crate::text::{chars_of, push_char};

verus! {

/// The log of a run.
pub struct Log {
    /// The file that file output goes to.
    pub log_file_name: String,
    /// Where messages go.
    pub log_type: LogOutput,
    /// The least severe level that is written (errors are always written).
    pub verbose: LogVerbosity,
}

/// The stream a log line is written to.
#[derive(PartialEq, Eq, Structural, Clone, Copy, Debug)]
pub enum LogTarget {
    /// Standard output, followed by a newline.
    Stdout,
    /// Standard error, followed by a newline.
    Stderr,
    /// Appended to the log file as it is.
    File,
}

/// One line that the log writes.
pub struct LogLine {
    pub target: LogTarget,
    pub text: String,
}

/// A date-time with its spaces and colons turned into underscores.
pub open spec fn file_safe(dt: Seq<char>) -> Seq<char> {
    dt.map_values(|c: char| if c == ' ' || c == ':' { '_' } else { c })
}

/// The name of the log file created at the local date-time `dt`.
pub open spec fn log_file_name_spec(dt: Seq<char>) -> Seq<char> {
    "data_comparison_"@ + file_safe(dt) + ".log"@
}

/// The tag that starts a message of a level.
pub open spec fn level_tag(level: LogVerbosity) -> Seq<char> {
    match level {
        LogVerbosity::Debug => "<DEBUG>"@,
        LogVerbosity::Info => "<INFO>"@,
        LogVerbosity::Warning => "<WARNING>"@,
        LogVerbosity::Error => "<ERROR>"@,
    }
}

/// Whether a log set to `verbose` writes a message of `level`: errors always,
/// other messages when their level is at least as severe as `verbose`.
pub open spec fn emits(verbose: LogVerbosity, level: LogVerbosity) -> bool {
    level == LogVerbosity::Error || verbose.rank() <= level.rank()
}

/// Where a message of `level` goes for a log of type `log_type`: errors on
/// the console go to standard error.
pub open spec fn target_spec(log_type: LogOutput, level: LogVerbosity) -> LogTarget {
    match log_type {
        LogOutput::File => LogTarget::File,
        _ => if level == LogVerbosity::Error { LogTarget::Stderr } else { LogTarget::Stdout },
    }
}

/// The text written for a message: its tag, the message, and a newline when
/// it goes to the file.
pub open spec fn line_text_spec(log_type: LogOutput, level: LogVerbosity, message: Seq<char>) -> Seq<char> {
    match log_type {
        LogOutput::File => level_tag(level) + message + "\n"@,
        _ => level_tag(level) + message,
    }
}

fn file_safe_name(datetime: &str) -> (r: String)
    ensures
        r@ == log_file_name_spec(datetime@),
{
    let cs = chars_of(datetime);
    let mut r = String::from_str("data_comparison_");
    let ghost prefix = r@;
    let mut i: usize = 0;
    while i < cs.len()
        invariant
            i <= cs@.len(),
            cs@ == datetime@,
            prefix == "data_comparison_"@,
            r@ == prefix + file_safe(cs@.take(i as int)),
        decreases cs@.len() - i,
    {
        let c = cs[i];
        let d = if c == ' ' || c == ':' { '_' } else { c };
        push_char(&mut r, d);
        assert(file_safe(cs@.take(i + 1)) =~= file_safe(cs@.take(i as int)).push(d));
        i = i + 1;
    }
    assert(cs@.take(i as int) =~= cs@);
    r.append(".log");
    r
}

impl Log {
    /// The log name for the local date-time `datetime`.
    pub fn log_file_name_for(datetime: &str) -> (r: String)
        ensures
            r@ == log_file_name_spec(datetime@),
    {
        file_safe_name(datetime)
    }

    /// A log for the settings of a run: it writes where the settings say, at
    /// info level and above, and its file is named after the current local
    /// date-time.
    pub fn new(config: &Config) -> (log: Log)
        ensures
            exists|dt: Seq<char>| log.log_file_name@ == log_file_name_spec(dt),
            log.log_type == config.log_config.log_output_type,
            log.verbose == LogVerbosity::Info,
    {
        let now = crate::clock::local_datetime_string();
        let log = Log {
            log_file_name: Log::log_file_name_for(now.as_str()),
            log_type: config.log_config.log_output_type,
            verbose: LogVerbosity::Info,
        };
        assert(log.log_file_name@ == log_file_name_spec(now@));
        log
    }

    /// The line that a message of `level` produces, or `None` when this log
    /// does not write messages of that level.
    pub fn entry(&self, level: LogVerbosity, message: &str) -> (r: Option<LogLine>)
        ensures
            r is Some <==> emits(self.verbose, level),
            r matches Some(line) ==> {
                &&& line.target == target_spec(self.log_type, level)
                &&& line.text@ == line_text_spec(self.log_type, level, message@)
            },
    {
        let is_error = match level {
            LogVerbosity::Error => true,
            _ => false,
        };
        if !is_error && self.verbose.level() > level.level() {
            return None;
        }
        let mut text = match level {
            LogVerbosity::Debug => String::from_str("<DEBUG>"),
            LogVerbosity::Info => String::from_str("<INFO>"),
            LogVerbosity::Warning => String::from_str("<WARNING>"),
            LogVerbosity::Error => String::from_str("<ERROR>"),
        };
        text.append(message);
        let target = match self.log_type {
            LogOutput::File => {
                text.append("\n");
                LogTarget::File
            },
            _ => if is_error { LogTarget::Stderr } else { LogTarget::Stdout },
        };
        Some(LogLine { target, text })
    }
}

} // verus!

verus! {

/// Errors are written whatever the verbosity.
pub proof fn lemma_errors_always_written(verbose: LogVerbosity)
    ensures
        emits(verbose, LogVerbosity::Error),
{
}

/// A log that writes messages of one level writes the messages of every
/// more severe level too.
pub proof fn lemma_emits_more_severe(verbose: LogVerbosity, level: LogVerbosity, more_severe: LogVerbosity)
    requires
        emits(verbose, level),
        level.rank() <= more_severe.rank(),
    ensures
        emits(verbose, more_severe),
{
}

/// A log set to debug writes every message.
pub proof fn lemma_debug_writes_everything(level: LogVerbosity)
    ensures
        emits(LogVerbosity::Debug, level),
{
}

} // verus!

verus! {

/// A log that writes to a file writes every message there, errors included,
/// as the level's tag, the message and a newline.
pub proof fn lemma_file_log_writes_everything_to_file(level: LogVerbosity, message: Seq<char>)
    ensures
        target_spec(LogOutput::File, level) == LogTarget::File,
        level == LogVerbosity::Debug ==> line_text_spec(LogOutput::File, level, message) == "<DEBUG>"@ + message
            + "\n"@,
        level == LogVerbosity::Info ==> line_text_spec(LogOutput::File, level, message) == "<INFO>"@ + message
            + "\n"@,
        level == LogVerbosity::Warning ==> line_text_spec(LogOutput::File, level, message) == "<WARNING>"@
            + message + "\n"@,
        level == LogVerbosity::Error ==> line_text_spec(LogOutput::File, level, message) == "<ERROR>"@ + message
            + "\n"@,
{
}

/// A log on the console writes errors to standard error and every other
/// message to standard output, as the level's tag followed by the message.
pub proof fn lemma_console_log_targets(log_type: LogOutput, level: LogVerbosity, message: Seq<char>)
    requires
        log_type != LogOutput::File,
    ensures
        level == LogVerbosity::Error ==> target_spec(log_type, level) == LogTarget::Stderr,
        level != LogVerbosity::Error ==> target_spec(log_type, level) == LogTarget::Stdout,
        level == LogVerbosity::Debug ==> line_text_spec(log_type, level, message) == "<DEBUG>"@ + message,
        level == LogVerbosity::Info ==> line_text_spec(log_type, level, message) == "<INFO>"@ + message,
        level == LogVerbosity::Warning ==> line_text_spec(log_type, level, message) == "<WARNING>"@ + message,
        level == LogVerbosity::Error ==> line_text_spec(log_type, level, message) == "<ERROR>"@ + message,
{
}

/// A log writes a message exactly when the message is an error or at least
/// as severe as the log's verbosity: debug < info < warning < error.
pub proof fn lemma_emits_by_severity(verbose: LogVerbosity, level: LogVerbosity)
    ensures
        level == LogVerbosity::Error ==> emits(verbose, level),
        verbose == LogVerbosity::Debug ==> emits(verbose, level),
        verbose == LogVerbosity::Info ==> (emits(verbose, level) <==> level != LogVerbosity::Debug),
        verbose == LogVerbosity::Warning ==> (emits(verbose, level) <==> (level == LogVerbosity::Warning
            || level == LogVerbosity::Error)),
        verbose == LogVerbosity::Error ==> (emits(verbose, level) <==> level == LogVerbosity::Error),
{
}

} // verus!
