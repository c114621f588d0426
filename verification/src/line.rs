//! What a rendered record looks like: the style and text of its label, its
//! location prefix, and the stream that it is written to.

use vstd::prelude::*;
use crate::severity::Severity;
use crate::text::{capitalized, decimal, lemma_capitalized_ignores_case, same_ignoring_case};

verus! {

/// Whether the program was built for release or for development.
#[derive(Clone, Copy, Debug, PartialEq, Eq, Structural)]
pub enum BuildMode {
    Development,
    Release,
}

/// A foreground colour of the terminal.
#[derive(Clone, Copy, Debug, PartialEq, Eq, Structural)]
pub enum Color {
    /// The terminal's colour is left as it is.
    NotSet,
    Yellow,
}

/// How a piece of text is painted on the terminal.
#[derive(Clone, Copy, Debug, PartialEq, Eq, Structural)]
pub struct Style {
    pub color: Color,
    pub dim: bool,
}

/// One of the two output streams of the process.
#[derive(Clone, Copy, Debug, PartialEq, Eq, Structural)]
pub enum Stream {
    Stdout,
    Stderr,
}

/// The severity label at the start of a line: its text and the style that the
/// text is painted in.
#[derive(Debug)]
pub struct Label {
    pub style: Style,
    pub text: String,
}

/// A rendered record. The line on the terminal is the label, painted in its
/// style, followed by `body`, which ends the line.
#[derive(Debug)]
pub struct Line {
    pub stream: Stream,
    pub label: Label,
    pub body: String,
}

/// A label as a mathematical value.
pub struct LabelView {
    pub style: Style,
    pub text: Seq<char>,
}

/// A line as a mathematical value.
pub struct LineView {
    pub stream: Stream,
    pub label: LabelView,
    pub body: Seq<char>,
}

impl View for Label {
    type V = LabelView;

    open spec fn view(&self) -> LabelView {
        LabelView { style: self.style, text: self.text@ }
    }
}

impl View for Line {
    type V = LineView;

    open spec fn view(&self) -> LineView {
        LineView { stream: self.stream, label: self.label@, body: self.body@ }
    }
}

/// The style of the label of each severity.
pub open spec fn label_style(severity: Severity) -> Style {
    match severity {
        Severity::Error => Style { color: Color::Yellow, dim: false },
        Severity::Warn => Style { color: Color::Yellow, dim: false },
        Severity::Info => Style { color: Color::NotSet, dim: false },
        Severity::Debug => Style { color: Color::Yellow, dim: false },
        Severity::Trace => Style { color: Color::Yellow, dim: true },
    }
}

/// Whether a record of this severity carries a label: always, except that an
/// `Info` record has one in release builds only.
pub open spec fn label_shown(severity: Severity, mode: BuildMode) -> bool {
    severity != Severity::Info || mode == BuildMode::Release
}

/// The label of each severity where it is shown: the capitalised name, a colon
/// and a space.
pub open spec fn label_name(severity: Severity) -> Seq<char> {
    match severity {
        Severity::Error => "Error: "@,
        Severity::Warn => "Warn: "@,
        Severity::Info => "Info: "@,
        Severity::Debug => "Debug: "@,
        Severity::Trace => "Trace: "@,
    }
}

/// The text of the label of a record.
pub open spec fn label_text(severity: Severity, mode: BuildMode) -> Seq<char> {
    if label_shown(severity, mode) {
        label_name(severity)
    } else {
        Seq::empty()
    }
}

/// The location prefix of a record: in release builds the file, a colon, the
/// line number and a space; in development builds nothing.
pub open spec fn location_text(file: Seq<char>, line: nat, mode: BuildMode) -> Seq<char> {
    if mode == BuildMode::Release {
        file + ":"@ + decimal(line) + " "@
    } else {
        Seq::empty()
    }
}

/// The stream of each severity: errors and warnings go to the error stream,
/// everything else to the output stream.
pub open spec fn stream_for(severity: Severity) -> Stream {
    match severity {
        Severity::Error => Stream::Stderr,
        Severity::Warn => Stream::Stderr,
        Severity::Info => Stream::Stdout,
        Severity::Debug => Stream::Stdout,
        Severity::Trace => Stream::Stdout,
    }
}

/// Capitalising the facade's name of a severity and appending `": "` gives the
/// severity's label.
pub proof fn lemma_label_from_facade_name(severity: Severity)
    ensures
        capitalized(severity.facade_name()) + ": "@ == label_name(severity),
{
    reveal_strlit(": ");
    match severity {
        Severity::Error => {
            reveal_strlit("ERROR");
            reveal_strlit("Error: ");
        },
        Severity::Warn => {
            reveal_strlit("WARN");
            reveal_strlit("Warn: ");
        },
        Severity::Info => {
            reveal_strlit("INFO");
            reveal_strlit("Info: ");
        },
        Severity::Debug => {
            reveal_strlit("DEBUG");
            reveal_strlit("Debug: ");
        },
        Severity::Trace => {
            reveal_strlit("TRACE");
            reveal_strlit("Trace: ");
        },
    }
}

/// The label of a severity does not depend on the case in which the facade
/// spells the severity's name.
pub proof fn lemma_label_ignores_name_case(severity: Severity, name: Seq<char>)
    requires
        same_ignoring_case(name, severity.facade_name()),
    ensures
        capitalized(name) + ": "@ == label_name(severity),
{
    lemma_capitalized_ignores_case(name, severity.facade_name());
    lemma_label_from_facade_name(severity);
}

} // verus!
