//! How much the connector writes to its log files.

use vstd::prelude::*;
use vstd::std_specs::convert::FromSpecImpl;

verus! {

/// Depth of the connector's logging, by detail and size of the log file.
#[derive(Debug, Clone, Copy, PartialEq, Eq, Structural, PartialOrd, Ord, Hash)]
pub enum LogLevel {
    /// The least detail; the connector's code for it is 1.
    Minimum,
    /// The standard detail; the connector's code for it is 2.
    Default,
    /// The most detail; the connector's code for it is 3.
    Maximum,
}

/// The level that the connector's code `value` selects: codes below the
/// smallest select `Minimum`, codes above the largest select `Maximum`.
pub open spec fn level_of_code(value: int) -> LogLevel {
    if value <= 1 {
        LogLevel::Minimum
    } else if value == 2 {
        LogLevel::Default
    } else {
        LogLevel::Maximum
    }
}

impl LogLevel {
    /// The number that the connector's entry points take for this level.
    pub open spec fn code_spec(&self) -> int {
        match self {
            LogLevel::Minimum => 1,
            LogLevel::Default => 2,
            LogLevel::Maximum => 3,
        }
    }

    /// The level's name as it is written in source text.
    pub open spec fn name_spec(&self) -> Seq<char> {
        match self {
            LogLevel::Minimum => "LogLevel::Minimum"@,
            LogLevel::Default => "LogLevel::Default"@,
            LogLevel::Maximum => "LogLevel::Maximum"@,
        }
    }

    /// The number that the connector's entry points take for this level.
    pub fn code(&self) -> (c: i32)
        ensures
            c == self.code_spec(),
            1 <= c <= 3,
    {
        match self {
            LogLevel::Minimum => 1,
            LogLevel::Default => 2,
            LogLevel::Maximum => 3,
        }
    }

    /// The level's name as it is written in source text.
    pub fn name(&self) -> (s: &'static str)
        ensures
            s@ == self.name_spec(),
    {
        match self {
            LogLevel::Minimum => "LogLevel::Minimum",
            LogLevel::Default => "LogLevel::Default",
            LogLevel::Maximum => "LogLevel::Maximum",
        }
    }
}

impl Default for LogLevel {
    fn default() -> (level: LogLevel)
        ensures
            level == LogLevel::Default,
    {
        LogLevel::Default
    }
}

impl From<i32> for LogLevel {
    fn from(value: i32) -> (level: LogLevel) {
        if value <= 1 {
            LogLevel::Minimum
        } else if value == 2 {
            LogLevel::Default
        } else {
            LogLevel::Maximum
        }
    }
}

impl FromSpecImpl<i32> for LogLevel {
    open spec fn obeys_from_spec() -> bool {
        true
    }

    open spec fn from_spec(value: i32) -> LogLevel {
        level_of_code(value as int)
    }
}

/// Every level comes back from its own code, and the code of the level that
/// a number selects is that number brought into the range from 1 to 3.
pub proof fn code_round_trip(level: LogLevel, value: int)
    ensures
        level_of_code(level.code_spec()) == level,
        level_of_code(value).code_spec() == if value < 1 {
            1
        } else if value > 3 {
            3
        } else {
            value
        },
{
}

} // verus!
