//! Normalized severity values for log records.

use vstd::prelude::*;

verus! {

/// A normalized severity value, following the log data model's 24-level
/// scale: four fine-grained levels within each of the six named ranges
/// TRACE, DEBUG, INFO, WARN, ERROR and FATAL.
#[derive(Debug, Copy, Clone, PartialEq, Eq, PartialOrd, Ord, Hash, Structural)]
pub enum Severity {
    /// TRACE
    Trace,
    /// TRACE2
    Trace2,
    /// TRACE3
    Trace3,
    /// TRACE4
    Trace4,
    /// DEBUG
    Debug,
    /// DEBUG2
    Debug2,
    /// DEBUG3
    Debug3,
    /// DEBUG4
    Debug4,
    /// INFO
    Info,
    /// INFO2
    Info2,
    /// INFO3
    Info3,
    /// INFO4
    Info4,
    /// WARN
    Warn,
    /// WARN2
    Warn2,
    /// WARN3
    Warn3,
    /// WARN4
    Warn4,
    /// ERROR
    Error,
    /// ERROR2
    Error2,
    /// ERROR3
    Error3,
    /// ERROR4
    Error4,
    /// FATAL
    Fatal,
    /// FATAL2
    Fatal2,
    /// FATAL3
    Fatal3,
    /// FATAL4
    Fatal4,
}

impl Severity {
    /// The numeric level of this severity in the log data model,
    /// from 1 (the finest TRACE) to 24 (the coarsest FATAL).
    pub open spec fn spec_number(self) -> u8 {
        match self {
            Severity::Trace => 1,
            Severity::Trace2 => 2,
            Severity::Trace3 => 3,
            Severity::Trace4 => 4,
            Severity::Debug => 5,
            Severity::Debug2 => 6,
            Severity::Debug3 => 7,
            Severity::Debug4 => 8,
            Severity::Info => 9,
            Severity::Info2 => 10,
            Severity::Info3 => 11,
            Severity::Info4 => 12,
            Severity::Warn => 13,
            Severity::Warn2 => 14,
            Severity::Warn3 => 15,
            Severity::Warn4 => 16,
            Severity::Error => 17,
            Severity::Error2 => 18,
            Severity::Error3 => 19,
            Severity::Error4 => 20,
            Severity::Fatal => 21,
            Severity::Fatal2 => 22,
            Severity::Fatal3 => 23,
            Severity::Fatal4 => 24,
        }
    }

    /// The short name of this severity in the log data model.
    pub open spec fn spec_name(self) -> Seq<char> {
        match self {
            Severity::Trace => "TRACE"@,
            Severity::Trace2 => "TRACE2"@,
            Severity::Trace3 => "TRACE3"@,
            Severity::Trace4 => "TRACE4"@,
            Severity::Debug => "DEBUG"@,
            Severity::Debug2 => "DEBUG2"@,
            Severity::Debug3 => "DEBUG3"@,
            Severity::Debug4 => "DEBUG4"@,
            Severity::Info => "INFO"@,
            Severity::Info2 => "INFO2"@,
            Severity::Info3 => "INFO3"@,
            Severity::Info4 => "INFO4"@,
            Severity::Warn => "WARN"@,
            Severity::Warn2 => "WARN2"@,
            Severity::Warn3 => "WARN3"@,
            Severity::Warn4 => "WARN4"@,
            Severity::Error => "ERROR"@,
            Severity::Error2 => "ERROR2"@,
            Severity::Error3 => "ERROR3"@,
            Severity::Error4 => "ERROR4"@,
            Severity::Fatal => "FATAL"@,
            Severity::Fatal2 => "FATAL2"@,
            Severity::Fatal3 => "FATAL3"@,
            Severity::Fatal4 => "FATAL4"@,
        }
    }

    /// The numeric level of this severity, 1 through 24.
    pub fn number(&self) -> (n: u8)
        ensures
            n == self.spec_number(),
            1 <= n <= 24,
    {
        match self {
            Severity::Trace => 1,
            Severity::Trace2 => 2,
            Severity::Trace3 => 3,
            Severity::Trace4 => 4,
            Severity::Debug => 5,
            Severity::Debug2 => 6,
            Severity::Debug3 => 7,
            Severity::Debug4 => 8,
            Severity::Info => 9,
            Severity::Info2 => 10,
            Severity::Info3 => 11,
            Severity::Info4 => 12,
            Severity::Warn => 13,
            Severity::Warn2 => 14,
            Severity::Warn3 => 15,
            Severity::Warn4 => 16,
            Severity::Error => 17,
            Severity::Error2 => 18,
            Severity::Error3 => 19,
            Severity::Error4 => 20,
            Severity::Fatal => 21,
            Severity::Fatal2 => 22,
            Severity::Fatal3 => 23,
            Severity::Fatal4 => 24,
        }
    }

    /// Return the string representing the short name for the severity
    /// value as specified by the log data model.
    pub fn name(&self) -> (r: &'static str)
        ensures
            r@ == self.spec_name(),
    {
        match self {
            Severity::Trace => "TRACE",
            Severity::Trace2 => "TRACE2",
            Severity::Trace3 => "TRACE3",
            Severity::Trace4 => "TRACE4",
            Severity::Debug => "DEBUG",
            Severity::Debug2 => "DEBUG2",
            Severity::Debug3 => "DEBUG3",
            Severity::Debug4 => "DEBUG4",
            Severity::Info => "INFO",
            Severity::Info2 => "INFO2",
            Severity::Info3 => "INFO3",
            Severity::Info4 => "INFO4",
            Severity::Warn => "WARN",
            Severity::Warn2 => "WARN2",
            Severity::Warn3 => "WARN3",
            Severity::Warn4 => "WARN4",
            Severity::Error => "ERROR",
            Severity::Error2 => "ERROR2",
            Severity::Error3 => "ERROR3",
            Severity::Error4 => "ERROR4",
            Severity::Fatal => "FATAL",
            Severity::Fatal2 => "FATAL2",
            Severity::Fatal3 => "FATAL3",
            Severity::Fatal4 => "FATAL4",
        }
    }
}

} // verus!
