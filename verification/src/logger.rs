//! The backend: a severity threshold, and the rendering of the records that
//! pass it.

use vstd::prelude::*;
use crate::line::{
    label_style, label_text, lemma_label_from_facade_name, location_text, stream_for, BuildMode,
    Color, Label, LabelView, Line, LineView, Stream, Style,
};
use crate::record::Record;
use crate::severity::{display_name, Severity};
use crate::text::{capitalize, push_decimal};

verus! {

/// A logging backend that renders each accepted record as one line.
#[derive(Clone, Copy, Debug)]
pub struct Logger {
    level: Severity,
    mode: BuildMode,
}

impl Logger {
    /// The least urgent severity that this logger still accepts.
    pub closed spec fn threshold(&self) -> Severity {
        self.level
    }

    /// The build mode that this logger renders for.
    pub closed spec fn build_mode(&self) -> BuildMode {
        self.mode
    }

    /// A record of severity `level` passes the threshold: it is at least as
    /// urgent as the threshold.
    pub open spec fn accepts(&self, level: Severity) -> bool {
        level.at_least_as_urgent_as(self.threshold())
    }

    /// The line that an accepted `record` is rendered as: its label, and
    /// behind it the location, the message and a newline.
    pub open spec fn rendered(&self, record: Record) -> LineView {
        LineView {
            stream: stream_for(record.severity),
            label: LabelView {
                style: label_style(record.severity),
                text: label_text(record.severity, self.build_mode()),
            },
            body: location_text(record.file@, record.line as nat, self.build_mode())
                + record.message@ + "\n"@,
        }
    }

    /// A logger for a development build, with the threshold `Info`.
    pub fn new() -> (logger: Logger)
        ensures
            logger.threshold() == Severity::Info,
            logger.build_mode() == BuildMode::Development,
    {
        Logger { level: Severity::Info, mode: BuildMode::Development }
    }

    /// A logger for the given build mode, with the threshold `Info`.
    pub fn with_mode(mode: BuildMode) -> (logger: Logger)
        ensures
            logger.threshold() == Severity::Info,
            logger.build_mode() == mode,
    {
        Logger { level: Severity::Info, mode }
    }

    /// Replaces the threshold by `level` and hands the logger back, so that
    /// calls can be chained.
    pub fn set_level(&mut self, level: Severity) -> (this: &mut Self)
        ensures
            this.threshold() == level,
            this.build_mode() == old(self).build_mode(),
            *final(self) == *final(this),
    {
        self.level = level;
        self
    }

    /// Whether a record of severity `level` is rendered. The target does not
    /// matter.
    pub fn enabled(&self, level: Severity, _target: &str) -> (b: bool)
        ensures
            b == self.accepts(level),
    {
        level.at_least_as_urgent_as(self.level)
    }

    /// The label of `record`: its style, and its text where it is shown.
    pub fn format_level(&self, record: &Record) -> (label: Label)
        ensures
            label.style == label_style(record.severity),
            label.text@ == label_text(record.severity, self.build_mode()),
    {
        let (style, shown) = match record.severity {
            Severity::Error => (Style { color: Color::Yellow, dim: false }, true),
            Severity::Warn => (Style { color: Color::Yellow, dim: false }, true),
            Severity::Debug => (Style { color: Color::Yellow, dim: false }, true),
            Severity::Trace => (Style { color: Color::Yellow, dim: true }, true),
            Severity::Info => (
                Style { color: Color::NotSet, dim: false },
                self.mode == BuildMode::Release,
            ),
        };
        if shown {
            let name = display_name(record.severity);
            let mut text = capitalize(name.as_str());
            text.append(": ");
            proof {
                lemma_label_from_facade_name(record.severity);
            }
            Label { style, text }
        } else {
            Label { style: Style { color: Color::NotSet, dim: false }, text: String::new() }
        }
    }

    /// The location prefix of `record`.
    pub fn format_location(&self, record: &Record) -> (location: String)
        ensures
            location@ == location_text(record.file@, record.line as nat, self.build_mode()),
    {
        let mut location = String::new();
        if self.mode == BuildMode::Release {
            location.append(record.file);
            location.append(":");
            push_decimal(&mut location, record.line);
            location.append(" ");
        }
        location
    }

    /// Renders `record` if it passes the threshold: the label, then the
    /// location, the message and a newline, and the stream that the line is
    /// written to. A record that does not pass gives nothing to write.
    pub fn log(&self, record: &Record) -> (out: Option<Line>)
        ensures
            out is Some <==> self.accepts(record.severity),
            out matches Some(line) ==> line@ == self.rendered(*record),
    {
        if !self.enabled(record.severity, record.target) {
            return None;
        }
        let label = self.format_level(record);
        let mut body = self.format_location(record);
        body.append(record.message);
        body.append("\n");
        let stream = if record.severity.at_least_as_urgent_as(Severity::Warn) {
            Stream::Stderr
        } else {
            Stream::Stdout
        };
        Some(Line { stream, label, body })
    }
}

/// Relaxing the threshold never disables a severity: what a logger accepts, a
/// logger with a less urgent threshold accepts too.
pub proof fn lemma_enabled_monotonic(strict: Logger, relaxed: Logger, level: Severity)
    requires
        strict.threshold().at_least_as_urgent_as(relaxed.threshold()),
        strict.accepts(level),
    ensures
        relaxed.accepts(level),
{
}

/// Errors and warnings go to the error stream and every other record to the
/// output stream, whatever the threshold and the build mode of the logger. The
/// error stream is the stream of the records that are at least as urgent as a
/// warning.
pub proof fn lemma_stream_by_severity(logger: Logger, record: Record)
    ensures
        logger.rendered(record).stream == Stream::Stderr <==> record.severity == Severity::Error
            || record.severity == Severity::Warn,
        logger.rendered(record).stream == Stream::Stdout <==> record.severity == Severity::Info
            || record.severity == Severity::Debug || record.severity == Severity::Trace,
        logger.rendered(record).stream == Stream::Stderr
            <==> record.severity.at_least_as_urgent_as(Severity::Warn),
{
}

} // verus!
