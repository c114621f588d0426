//! Severities and their order of urgency.

use vstd::prelude::*;

verus! {

/// How urgent a record is, from the most urgent (`Error`) to the least (`Trace`).
#[derive(Clone, Copy, Debug, PartialEq, Eq, Structural)]
pub enum Severity {
    Error,
    Warn,
    Info,
    Debug,
    Trace,
}

impl Severity {
    /// Position in the order of urgency: 1 for `Error`, rising to 5 for `Trace`.
    pub open spec fn spec_rank(self) -> nat {
        match self {
            Severity::Error => 1,
            Severity::Warn => 2,
            Severity::Info => 3,
            Severity::Debug => 4,
            Severity::Trace => 5,
        }
    }

    /// `self` is at least as urgent as `other`.
    pub open spec fn spec_at_least_as_urgent_as(self, other: Severity) -> bool {
        self.spec_rank() <= other.spec_rank()
    }

    /// The name under which the logging facade prints this severity.
    pub open spec fn facade_name(self) -> Seq<char> {
        match self {
            Severity::Error => "ERROR"@,
            Severity::Warn => "WARN"@,
            Severity::Info => "INFO"@,
            Severity::Debug => "DEBUG"@,
            Severity::Trace => "TRACE"@,
        }
    }

    /// Position in the order of urgency, as a machine integer.
    pub fn rank(self) -> (r: u8)
        ensures
            r == self.spec_rank(),
    {
        match self {
            Severity::Error => 1,
            Severity::Warn => 2,
            Severity::Info => 3,
            Severity::Debug => 4,
            Severity::Trace => 5,
        }
    }

    /// Whether `self` is at least as urgent as `other`.
    #[verifier::when_used_as_spec(spec_at_least_as_urgent_as)]
    pub fn at_least_as_urgent_as(self, other: Severity) -> (b: bool)
        ensures
            b == self.spec_at_least_as_urgent_as(other),
    {
        self.rank() <= other.rank()
    }
}

/// Formats the matching `log::LogLevel` with `{}`. Its `Display` impl pads the
/// entry of the crate's table of level names, so without a width the result is
/// that entry: the upper-case name of the level.
#[verifier::external_body]
pub(crate) fn display_name(severity: Severity) -> (name: String)
    ensures
        name@ == severity.facade_name(),
{
    let level = match severity {
        Severity::Error => log::LogLevel::Error,
        Severity::Warn => log::LogLevel::Warn,
        Severity::Info => log::LogLevel::Info,
        Severity::Debug => log::LogLevel::Debug,
        Severity::Trace => log::LogLevel::Trace,
    };
    format!("{}", level)
}

} // verus!
