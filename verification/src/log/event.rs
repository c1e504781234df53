use vstd::prelude::*;
use crate::log::level::LogLevel;
use crate::log::progress::Progress;

verus! {

/// The moment a log event was produced, in local time: seconds since the Unix epoch, the
/// nanoseconds past that second (from one billion upwards only during a leap second), and
/// the offset of local time from UTC in seconds.
#[derive(Debug, Clone, Copy, PartialEq, Eq, Structural)]
pub struct EventTime {
    secs: i64,
    nanos: u32,
    offset: i32,
}

/// Seconds past local midnight at the moment `t`.
pub open spec fn spec_second_of_day(t: EventTime) -> int {
    (t.spec_secs() + t.spec_offset()) % 86400
}

impl EventTime {
    /// Seconds since the Unix epoch.
    pub closed spec fn spec_secs(self) -> int {
        self.secs as int
    }

    /// Nanoseconds past the second.
    pub closed spec fn spec_nanos(self) -> nat {
        self.nanos as nat
    }

    /// Offset of local time from UTC, in seconds.
    pub closed spec fn spec_offset(self) -> int {
        self.offset as int
    }

    /// The moment `secs` seconds and `nanos` nanoseconds after the Unix epoch, in a time
    /// zone `offset` seconds ahead of UTC.
    pub fn new(secs: i64, nanos: u32, offset: i32) -> (t: EventTime)
        ensures
            t.spec_secs() == secs,
            t.spec_nanos() == nanos,
            t.spec_offset() == offset,
    {
        EventTime { secs, nanos, offset }
    }

    /// Seconds since the Unix epoch.
    pub fn secs(&self) -> (r: i64)
        ensures
            r == self.spec_secs(),
    {
        self.secs
    }

    /// Nanoseconds past the second.
    pub fn nanos(&self) -> (r: u32)
        ensures
            r == self.spec_nanos(),
    {
        self.nanos
    }

    /// Offset of local time from UTC, in seconds.
    pub fn offset(&self) -> (r: i32)
        ensures
            r == self.spec_offset(),
    {
        self.offset
    }

    /// Seconds past local midnight.
    pub fn second_of_day(&self) -> (r: u32)
        ensures
            r == spec_second_of_day(*self),
            r < 86400,
    {
        let shifted: i128 = self.secs as i128 + self.offset as i128 + 9_223_372_039_002_278_400i128;
        assert(9_223_372_039_002_278_400i128 == 86400 * 106_751_991_192_156i128);
        assert(shifted >= 0);
        let day: i128 = shifted % 86400;
        assert(day == (self.secs + self.offset) % 86400) by (nonlinear_arith)
            requires
                shifted == self.secs + self.offset + 86400 * 106_751_991_192_156,
                shifted >= 0,
                day == shifted % 86400,
        ;
        day as u32
    }
}

/// A single entry produced by a logger and handed to every registered sink.
///
/// The enum is deliberately exhaustive: a consumer that renders log output is expected to
/// handle every variant, and adding one is a breaking change.
#[derive(Debug, PartialEq, Eq)]
pub enum LogEvent {
    /// A levelled text message.
    Message {
        /// When the event was produced.
        time: EventTime,
        /// Severity the message was logged at.
        level: LogLevel,
        /// The message itself, without decoration.
        message: String,
        /// The message rendered for display, as produced by [`format::message`].
        ///
        /// [`format::message`]: super::format::message
        formatted: String,
    },
    /// A build step reported as a tag with a value and optional detail lines.
    Build {
        /// When the event was produced.
        time: EventTime,
        /// Short name of the step, such as `CC` or `LINK`.
        tag: String,
        /// What the step acted on, usually a path.
        value: String,
        /// Additional lines describing the step.
        details: Vec<String>,
        /// The step rendered for display, as produced by [`format::build`].
        ///
        /// [`format::build`]: super::format::build
        formatted: String,
    },
    /// Text passed through verbatim, without a timestamp or a level prefix.
    Raw {
        /// When the event was produced.
        time: EventTime,
        /// The text to write.
        text: String,
        /// Whether a line break follows the text.
        newline: bool,
    },
    /// An update of a long-running task.
    Progress {
        /// When the event was produced.
        time: EventTime,
        /// State of the task at that moment.
        progress: Progress,
    },
}

/// When an event was produced.
pub open spec fn spec_event_time(event: LogEvent) -> EventTime {
    match event {
        LogEvent::Message { time, .. } => time,
        LogEvent::Build { time, .. } => time,
        LogEvent::Raw { time, .. } => time,
        LogEvent::Progress { time, .. } => time,
    }
}

impl Clone for LogEvent {
    fn clone(&self) -> (r: LogEvent) {
        match self {
            LogEvent::Message { time, level, message, formatted } => LogEvent::Message {
                time: *time,
                level: *level,
                message: message.clone(),
                formatted: formatted.clone(),
            },
            LogEvent::Build { time, tag, value, details, formatted } => LogEvent::Build {
                time: *time,
                tag: tag.clone(),
                value: value.clone(),
                details: details.clone(),
                formatted: formatted.clone(),
            },
            LogEvent::Raw { time, text, newline } => LogEvent::Raw {
                time: *time,
                text: text.clone(),
                newline: *newline,
            },
            LogEvent::Progress { time, progress } => LogEvent::Progress {
                time: *time,
                progress: progress.clone(),
            },
        }
    }
}

impl LogEvent {
    /// When the event was produced.
    pub fn time(&self) -> (t: EventTime)
        ensures
            t == spec_event_time(*self),
    {
        match self {
            LogEvent::Message { time, .. } => *time,
            LogEvent::Build { time, .. } => *time,
            LogEvent::Raw { time, .. } => *time,
            LogEvent::Progress { time, .. } => *time,
        }
    }
}

} // verus!
