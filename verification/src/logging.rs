//! Where the log goes: the syslog facility and the level that the settings
//! name.

use crate::conf::Config;
use vstd::prelude::*;

verus! {

/// A syslog facility that the gateway can log under.
#[derive(Debug, Clone, Copy, PartialEq, Eq)]
pub enum Facility {
    Local0,
    Local1,
    Local2,
    Local3,
    Local4,
    Local5,
    User,
}

/// The least severity that is logged.
#[derive(Debug, Clone, Copy, PartialEq, Eq)]
pub enum Level {
    Trace,
    Debug,
    Info,
    Warn,
    Error,
}

/// Facility and level of the process's log.
#[derive(Debug, Clone, Copy, PartialEq, Eq)]
pub struct LogTarget {
    pub facility: Facility,
    pub level: Level,
}

/// The lower-case form of a text.
pub uninterp spec fn lowercase(text: Seq<char>) -> Seq<char>;

/// Calls `str::to_lowercase`.
///
/// Trusted: the result depends on the text alone; it is named
/// [`lowercase`].
#[verifier::external_body]
fn to_lowercase(text: &str) -> (lower: String)
    ensures
        lower@ == lowercase(text@),
{
    text.to_lowercase()
}

/// The facility for a name in lower case. Only `local0` to `local5` have a
/// facility of their own: `local6` and `local7` are logged under `Local0`,
/// and every other name under `User`.
pub open spec fn facility_of(lower: Seq<char>) -> Facility {
    if lower == "local0"@ || lower == "local6"@ || lower == "local7"@ {
        Facility::Local0
    } else if lower == "local1"@ {
        Facility::Local1
    } else if lower == "local2"@ {
        Facility::Local2
    } else if lower == "local3"@ {
        Facility::Local3
    } else if lower == "local4"@ {
        Facility::Local4
    } else if lower == "local5"@ {
        Facility::Local5
    } else {
        Facility::User
    }
}

/// The level for a name in lower case; `Info` for a name that is none.
pub open spec fn level_of(lower: Seq<char>) -> Level {
    if lower == "trace"@ {
        Level::Trace
    } else if lower == "debug"@ {
        Level::Debug
    } else if lower == "warn"@ {
        Level::Warn
    } else if lower == "error"@ {
        Level::Error
    } else {
        Level::Info
    }
}

/// The target that settings with these two names ask for. Upper and lower
/// case make no difference.
pub open spec fn target_of(facility: Seq<char>, level: Seq<char>) -> LogTarget {
    LogTarget { facility: facility_of(lowercase(facility)), level: level_of(lowercase(level)) }
}

fn same_text(left: &str, right: &str) -> (same: bool)
    ensures
        same == (left@ == right@),
{
    let left: String = String::from_str(left);
    let right: String = String::from_str(right);
    left == right
}

/// The facility for a name in lower case.
pub fn facility_for(lower: &str) -> (facility: Facility)
    ensures
        facility == facility_of(lower@),
{
    if same_text(lower, "local0") || same_text(lower, "local6") || same_text(lower, "local7") {
        Facility::Local0
    } else if same_text(lower, "local1") {
        Facility::Local1
    } else if same_text(lower, "local2") {
        Facility::Local2
    } else if same_text(lower, "local3") {
        Facility::Local3
    } else if same_text(lower, "local4") {
        Facility::Local4
    } else if same_text(lower, "local5") {
        Facility::Local5
    } else {
        Facility::User
    }
}

/// The level for a name in lower case.
pub fn level_for(lower: &str) -> (level: Level)
    ensures
        level == level_of(lower@),
{
    if same_text(lower, "trace") {
        Level::Trace
    } else if same_text(lower, "debug") {
        Level::Debug
    } else if same_text(lower, "warn") {
        Level::Warn
    } else if same_text(lower, "error") {
        Level::Error
    } else {
        Level::Info
    }
}

impl Config {
    /// Where the log of a gateway with these settings goes.
    pub fn log_target(&self) -> (target: LogTarget)
        ensures
            target == target_of(self@.syslog_facility, self@.syslog_level),
    {
        let facility: String = to_lowercase(self.syslog_facility.as_str());
        let level: String = to_lowercase(self.syslog_level.as_str());
        LogTarget {
            facility: facility_for(facility.as_str()),
            level: level_for(level.as_str()),
        }
    }
}

} // verus!
