//! Structured logging: levels, progress tracking, events and their text form.
pub mod level;
pub mod progress;
pub mod event;
pub mod format;
pub mod console_sink;

pub use console_sink::{ConsoleSink, ConsoleSinkBuilder, ConsoleWrite, DEFAULT_UNITS_PER_HASH};
pub use event::{EventTime, LogEvent};
pub use level::LogLevel;
pub use progress::{Progress, ProgressState};
