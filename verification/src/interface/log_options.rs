//! How much the log writes and where it writes it.
use vstd::prelude::*;

verus! {

/// The severity of a log message, from the most to the least talkative.
#[derive(PartialEq, Eq, Structural, Clone, Copy, Debug)]
pub enum LogVerbosity {
    Debug,
    Info,
    Warning,
    Error,
}

impl LogVerbosity {
    /// The rank of a severity: debug is 0, info 1, warning 2, error 3.
    pub open spec fn rank(self) -> int {
        match self {
            LogVerbosity::Debug => 0,
            LogVerbosity::Info => 1,
            LogVerbosity::Warning => 2,
            LogVerbosity::Error => 3,
        }
    }

    /// The rank of a severity, as a number.
    pub fn level(&self) -> (r: u8)
        ensures
            r == self.rank(),
    {
        match self {
            LogVerbosity::Debug => 0,
            LogVerbosity::Info => 1,
            LogVerbosity::Warning => 2,
            LogVerbosity::Error => 3,
        }
    }
}

/// Where log messages go.
#[derive(PartialEq, Eq, Structural, Clone, Copy, Debug)]
pub enum LogOutput {
    StdOut,
    File,
    Console,
}

} // verus!
