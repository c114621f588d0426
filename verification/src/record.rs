//! The record that the logging facade hands to the backend, as plain values.

use vstd::prelude::*;
use crate::severity::Severity;

verus! {

/// One log event: how urgent it is, where it comes from and what it says.
#[derive(Clone, Copy, Debug)]
pub struct Record<'a> {
    pub severity: Severity,
    /// Name of the module or component that logged the event.
    pub target: &'a str,
    /// The message, already formatted.
    pub message: &'a str,
    /// Source file of the logging call.
    pub file: &'a str,
    /// Line of the logging call in `file`.
    pub line: u32,
}

} // verus!
