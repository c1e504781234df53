use vstd::prelude::*;

verus! {

/// Severity level of a log message.
///
/// Levels are ordered by [`severity`](LogLevel::severity): [`LogLevel::Debug`] is the
/// lowest and [`LogLevel::Critical`] the highest.
#[derive(Debug, Clone, Copy, PartialEq, Eq, PartialOrd, Ord, Hash, Structural)]
pub enum LogLevel {
    /// Diagnostic detail, hidden unless verbose logging is enabled.
    Debug,
    /// Normal progress reporting.
    Info,
    /// Something unexpected that does not stop the operation.
    Warning,
    /// An operation failed.
    Error,
    /// A failure that prevents any further work.
    Critical,
}

/// Numeric severity of a level.
pub open spec fn spec_severity(level: LogLevel) -> u8 {
    match level {
        LogLevel::Debug => 10,
        LogLevel::Info => 20,
        LogLevel::Warning => 30,
        LogLevel::Error => 40,
        LogLevel::Critical => 50,
    }
}

/// Upper-case name of a level.
pub open spec fn spec_level_name(level: LogLevel) -> Seq<char> {
    match level {
        LogLevel::Debug => "DEBUG"@,
        LogLevel::Info => "INFO"@,
        LogLevel::Warning => "WARNING"@,
        LogLevel::Error => "ERROR"@,
        LogLevel::Critical => "CRITICAL"@,
    }
}

impl LogLevel {
    /// Numeric severity of the level, from `10` for [`LogLevel::Debug`] to `50` for
    /// [`LogLevel::Critical`].
    pub fn severity(self) -> (s: u8)
        ensures
            s == spec_severity(self),
    {
        match self {
            LogLevel::Debug => 10,
            LogLevel::Info => 20,
            LogLevel::Warning => 30,
            LogLevel::Error => 40,
            LogLevel::Critical => 50,
        }
    }

    /// The level whose [`severity`](LogLevel::severity) is `severity`, if there is one.
    pub fn from_severity(severity: u8) -> (level: Option<LogLevel>)
        ensures
            match level {
                Some(l) => spec_severity(l) == severity,
                None => forall|l: LogLevel| spec_severity(l) != severity,
            },
    {
        match severity {
            10 => Some(LogLevel::Debug),
            20 => Some(LogLevel::Info),
            30 => Some(LogLevel::Warning),
            40 => Some(LogLevel::Error),
            50 => Some(LogLevel::Critical),
            _ => None,
        }
    }

    /// Upper-case name of the level, such as `"DEBUG"`.
    pub fn level_name(self) -> (name: &'static str)
        ensures
            name@ == spec_level_name(self),
    {
        match self {
            LogLevel::Debug => "DEBUG",
            LogLevel::Info => "INFO",
            LogLevel::Warning => "WARNING",
            LogLevel::Error => "ERROR",
            LogLevel::Critical => "CRITICAL",
        }
    }

    /// First letter of [`level_name`](LogLevel::level_name), used in formatted messages.
    pub fn letter(self) -> (c: char)
        ensures
            c == spec_level_name(self)[0],
    {
        proof {
            reveal_strlit("DEBUG");
            reveal_strlit("INFO");
            reveal_strlit("WARNING");
            reveal_strlit("ERROR");
            reveal_strlit("CRITICAL");
        }
        match self {
            LogLevel::Debug => 'D',
            LogLevel::Info => 'I',
            LogLevel::Warning => 'W',
            LogLevel::Error => 'E',
            LogLevel::Critical => 'C',
        }
    }

    /// Whether a message at `level` passes a logger set to `self`: its severity is at
    /// least the severity of `self`.
    pub fn admits(self, level: LogLevel) -> (b: bool)
        ensures
            b == (spec_severity(level) >= spec_severity(self)),
    {
        level.severity() >= self.severity()
    }
}

/// Severity orders the levels strictly, in the order they are declared, and no two
/// levels share a severity.
pub proof fn lemma_severity_is_injective(a: LogLevel, b: LogLevel)
    ensures
        spec_severity(a) == spec_severity(b) <==> a == b,
        spec_severity(a) % 10 == 0,
        10 <= spec_severity(a) <= 50,
{
}

} // verus!
