//! Log severities and the level filter read from configuration.

use vstd::prelude::*;
use vstd::string::*;
use crate::text::same_text;

verus! {

/// The most verbose severity that is still emitted.
#[derive(Clone, Copy, Debug, PartialEq, Eq, Structural)]
pub enum LogLevel {
    Off,
    Error,
    Warn,
    Info,
    Debug,
    Trace,
}

/// How serious one log record is.
#[derive(Clone, Copy, Debug, PartialEq, Eq, Structural)]
pub enum Severity {
    Error,
    Warn,
    Info,
    Debug,
    Trace,
}

impl LogLevel {
    /// The word that stands for the level in a configuration record.
    pub open spec fn name(self) -> Seq<char> {
        match self {
            LogLevel::Off => "off"@,
            LogLevel::Error => "error"@,
            LogLevel::Warn => "warn"@,
            LogLevel::Info => "info"@,
            LogLevel::Debug => "debug"@,
            LogLevel::Trace => "trace"@,
        }
    }

    /// The level a configured word stands for. A word that names no level
    /// stands for `Error`.
    pub open spec fn of_name(word: Seq<char>) -> LogLevel {
        if word == "off"@ {
            LogLevel::Off
        } else if word == "warn"@ {
            LogLevel::Warn
        } else if word == "info"@ {
            LogLevel::Info
        } else if word == "debug"@ {
            LogLevel::Debug
        } else if word == "trace"@ {
            LogLevel::Trace
        } else {
            LogLevel::Error
        }
    }

    /// The level in force for a setting that may be absent: an absent setting
    /// means `Error`.
    pub open spec fn of_setting(setting: Option<String>) -> LogLevel {
        match setting {
            Some(word) => Self::of_name(word@),
            None => LogLevel::Error,
        }
    }

    /// The word that stands for the level in a configuration record.
    pub fn as_str(&self) -> (word: &'static str)
        ensures
            word@ == self.name(),
    {
        match self {
            LogLevel::Off => "off",
            LogLevel::Error => "error",
            LogLevel::Warn => "warn",
            LogLevel::Info => "info",
            LogLevel::Debug => "debug",
            LogLevel::Trace => "trace",
        }
    }

    /// Reads a level from its configured word.
    pub fn from_name(word: &str) -> (level: LogLevel)
        ensures
            level == Self::of_name(word@),
    {
        if same_text(word, "off") {
            LogLevel::Off
        } else if same_text(word, "warn") {
            LogLevel::Warn
        } else if same_text(word, "info") {
            LogLevel::Info
        } else if same_text(word, "debug") {
            LogLevel::Debug
        } else if same_text(word, "trace") {
            LogLevel::Trace
        } else {
            LogLevel::Error
        }
    }

    /// Resolves the level from a setting that may be absent.
    pub fn from_setting(setting: &Option<String>) -> (level: LogLevel)
        ensures
            level == Self::of_setting(*setting),
    {
        match setting {
            Some(word) => Self::from_name(word.as_str()),
            None => LogLevel::Error,
        }
    }

    /// Every level is read back from its own word.
    pub proof fn name_round_trip(self)
        ensures
            Self::of_name(self.name()) == self,
    {
        reveal_strlit("off");
        reveal_strlit("error");
        reveal_strlit("warn");
        reveal_strlit("info");
        reveal_strlit("debug");
        reveal_strlit("trace");
        assert("off"@.len() == 3);
        assert("warn"@[0] == 'w');
        assert("info"@[0] == 'i');
        assert("debug"@[0] == 'd');
        assert("trace"@[0] == 't');
        assert("error"@[0] == 'e');
    }

    /// A word resolves to a level other than `Error` only if it is exactly
    /// that level's word.
    pub proof fn only_own_word_selects(word: Seq<char>)
        ensures
            Self::of_name(word) != LogLevel::Error ==> word == Self::of_name(word).name(),
    {
    }
}

} // verus!
