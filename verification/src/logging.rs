//! Choices made when configuring logging: the name of each logging backend
//! and the tag shown beside each log event.
use vstd::prelude::*;

use crate::text::{contains_text, str_contains};
use vstd::string::StringExecFns;

verus! {

/// The logging backends.
#[derive(Clone, Copy, Debug, PartialEq, Eq, Structural)]
pub enum LoggingType {
    /// Pretty-printed trees of nested events.
    Forest,
    /// Structured output for the cloud logging service.
    Stackdriver,
}

impl LoggingType {
    /// The backend's name.
    pub open spec fn spec_name(self) -> Seq<char> {
        match self {
            LoggingType::Forest => "forest"@,
            LoggingType::Stackdriver => "stackdriver"@,
        }
    }

    /// The backend's name.
    pub fn into_string(self) -> (res: String)
        ensures
            res@ == self.spec_name(),
    {
        String::from_str(
            match self {
                LoggingType::Forest => "forest",
                LoggingType::Stackdriver => "stackdriver",
            },
        )
    }
}

/// The severity of a log event.
#[derive(Clone, Copy, Debug, PartialEq, Eq, Structural)]
pub enum LogLevel {
    Trace,
    Debug,
    Info,
    Warn,
    Error,
}

/// The icon tagging an event of the given level from the given module path:
/// errors and warnings by their level, then events of the rules, tutorial,
/// server, actions and raid state modules by their source, and the rest by
/// level again.
pub open spec fn spec_tag_icon(target: Seq<char>, level: LogLevel) -> char {
    if level == LogLevel::Error {
        '🚨'
    } else if level == LogLevel::Warn {
        '🚧'
    } else if contains_text(target, "rules"@) {
        '🎴'
    } else if contains_text(target, "tutorial"@) {
        '🎓'
    } else if contains_text(target, "server"@) {
        '💻'
    } else if contains_text(target, "actions"@) {
        '🎬'
    } else if contains_text(target, "raid_state"@) {
        '🔪'
    } else {
        match level {
            LogLevel::Trace => '📍',
            LogLevel::Debug => '📝',
            _ => '💡',
        }
    }
}

/// Returns the icon tagging an event of the given level from the module path
/// `target`.
pub fn tag_icon(target: &str, level: LogLevel) -> (res: char)
    ensures
        res == spec_tag_icon(target@, level),
{
    if level == LogLevel::Error {
        '🚨'
    } else if level == LogLevel::Warn {
        '🚧'
    } else if str_contains(target, "rules") {
        '🎴'
    } else if str_contains(target, "tutorial") {
        '🎓'
    } else if str_contains(target, "server") {
        '💻'
    } else if str_contains(target, "actions") {
        '🎬'
    } else if str_contains(target, "raid_state") {
        '🔪'
    } else {
        match level {
            LogLevel::Trace => '📍',
            LogLevel::Debug => '📝',
            _ => '💡',
        }
    }
}

/// Whether an event tagged with `icon` also shows its module path: those
/// tagged by level alone do.
pub fn shows_target(icon: char) -> (res: bool)
    ensures
        res == (icon == '📝' || icon == '💡' || icon == '📍'),
{
    icon == '📝' || icon == '💡' || icon == '📍'
}

} // verus!
