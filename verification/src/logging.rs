//! Settings of the structured log. Installing a subscriber is left to the
//! program that uses the library.

use vstd::prelude::*;

verus! {

/// Formats of the log.
#[derive(Debug, Clone, Copy, PartialEq, Eq, Structural)]
pub enum LogFormat {
    /// One JSON object for each event.
    Json,
    /// Several lines for each event, for reading.
    Pretty,
    /// One line for each event.
    Compact,
}

/// Settings of the log.
#[derive(Debug)]
pub struct LoggingConfig {
    /// Filter directive, such as `info` or `debug`.
    pub level: String,
    /// Format of the log.
    pub format: LogFormat,
    /// Whether events carry file and line.
    pub include_location: bool,
    /// Whether events carry their spans.
    pub include_spans: bool,
}

impl LoggingConfig {
    /// Whether the settings are the default ones: level `info`, pretty
    /// format, no location, with spans.
    pub open spec fn is_default(self) -> bool {
        &&& self.level@ == "info"@
        &&& self.format == LogFormat::Pretty
        &&& !self.include_location
        &&& self.include_spans
    }

    /// The default settings.
    pub fn new() -> (c: Self)
        ensures
            c.is_default(),
    {
        LoggingConfig {
            level: "info".to_owned(),
            format: LogFormat::Pretty,
            include_location: false,
            include_spans: true,
        }
    }

    /// Sets the filter directive.
    pub fn level(self, level: &str) -> (c: Self)
        ensures
            c.level@ == level@,
            c.format == self.format,
            c.include_location == self.include_location,
            c.include_spans == self.include_spans,
    {
        LoggingConfig {
            level: level.to_owned(),
            format: self.format,
            include_location: self.include_location,
            include_spans: self.include_spans,
        }
    }

    /// Sets the format.
    pub fn format(self, format: LogFormat) -> (c: Self)
        ensures
            c == (LoggingConfig { format, ..self }),
    {
        LoggingConfig { format, ..self }
    }

    /// Sets whether events carry file and line.
    pub fn include_location(self, enabled: bool) -> (c: Self)
        ensures
            c == (LoggingConfig { include_location: enabled, ..self }),
    {
        LoggingConfig { include_location: enabled, ..self }
    }

    /// Sets whether events carry their spans.
    pub fn include_spans(self, enabled: bool) -> (c: Self)
        ensures
            c == (LoggingConfig { include_spans: enabled, ..self }),
    {
        LoggingConfig { include_spans: enabled, ..self }
    }
}

impl Default for LoggingConfig {
    fn default() -> (c: Self)
        ensures
            c.is_default(),
    {
        Self::new()
    }
}

} // verus!
