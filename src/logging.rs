//! Severity of log events, as chosen by the verbosity count.
use vstd::prelude::*;

verus! {

/// Severity levels of log events, from the most severe.
#[derive(Clone, Copy, Debug, PartialEq, Eq, Structural)]
pub enum Severity {
    Error,
    Warning,
    Info,
    Debug,
    Trace,
}

/// The least severe level that is logged at verbosity `verbosity`.
pub open spec fn severity_of(verbosity: u8) -> Severity {
    if verbosity == 0 {
        Severity::Error
    } else if verbosity == 1 {
        Severity::Warning
    } else if verbosity == 2 {
        Severity::Info
    } else if verbosity == 3 {
        Severity::Debug
    } else {
        Severity::Trace
    }
}

pub fn verbosity_to_severity(verbosity: u8) -> (r: Severity)
    ensures
        r == severity_of(verbosity),
{
    match verbosity {
        0 => Severity::Error,
        1 => Severity::Warning,
        2 => Severity::Info,
        3 => Severity::Debug,
        _ => Severity::Trace,
    }
}

} // verus!
