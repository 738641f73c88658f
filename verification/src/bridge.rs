//! Mapping from a tracing front end's level names to normalized
//! severities, and the record updates the bridge layers perform.

use vstd::prelude::*;

use crate::record::LogRecord;
use crate::record::LogRecordSpec;
use crate::severity::Severity;

verus! {

/// The severity for an upper-case level name; unknown names are taken as
/// informational.
pub open spec fn severity_for_level(s: Seq<char>) -> Severity {
    if s == "INFO"@ {
        Severity::Info
    } else if s == "DEBUG"@ {
        Severity::Debug
    } else if s == "TRACE"@ {
        Severity::Trace
    } else if s == "WARN"@ {
        Severity::Warn
    } else if s == "ERROR"@ {
        Severity::Error
    } else {
        Severity::Info
    }
}

/// Map an upper-case level name from a tracing front end to the
/// normalized severity scale.
pub fn map_severity_to_otel_severity(level: &str) -> (r: Severity)
    ensures
        r == severity_for_level(level@),
{
    let owned: String = level.to_owned();
    if owned == "INFO".to_owned() {
        Severity::Info
    } else if owned == "DEBUG".to_owned() {
        Severity::Debug
    } else if owned == "TRACE".to_owned() {
        Severity::Trace
    } else if owned == "WARN".to_owned() {
        Severity::Warn
    } else if owned == "ERROR".to_owned() {
        Severity::Error
    } else {
        Severity::Info
    }
}

/// The severity for a capitalized level name; unknown names are taken as
/// informational.
pub open spec fn severity_for_level_name(s: Seq<char>) -> Severity {
    if s == "Info"@ {
        Severity::Info
    } else if s == "Debug"@ {
        Severity::Debug
    } else if s == "Trace"@ {
        Severity::Trace
    } else if s == "Warn"@ {
        Severity::Warn
    } else if s == "Error"@ {
        Severity::Error
    } else {
        Severity::Info
    }
}

/// Stamp a record with a level name as its severity text and the matching
/// normalized severity number, as the event visitors of the bridge layers
/// do.
pub fn update_severity(record: &mut LogRecord, level: &str)
    ensures
        final(record)@ == (LogRecordSpec {
            severity_text: Some(level@),
            severity_number: Some(severity_for_level_name(level@)),
            ..old(record)@
        }),
{
    let owned: String = level.to_owned();
    let number = if owned == "Info".to_owned() {
        Severity::Info
    } else if owned == "Debug".to_owned() {
        Severity::Debug
    } else if owned == "Trace".to_owned() {
        Severity::Trace
    } else if owned == "Warn".to_owned() {
        Severity::Warn
    } else if owned == "Error".to_owned() {
        Severity::Error
    } else {
        Severity::Info
    };
    record.severity_text = Some(owned);
    record.severity_number = Some(number);
    proof {
        assert(record@ =~~= (LogRecordSpec {
            severity_text: Some(level@),
            severity_number: Some(severity_for_level_name(level@)),
            ..old(record)@
        }));
    }
}

} // verus!
