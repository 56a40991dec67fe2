//! The severity of a record, and of the threshold below which records are
//! held back.

use vstd::prelude::*;

verus! {

/// Log levels, least severe first.
#[derive(Clone, Copy, Debug, PartialEq, Eq, PartialOrd, Ord, Hash, Structural)]
pub enum Severity {
    Trace,
    Debug,
    Info,
    Warn,
    Error,
}

impl Severity {
    /// Position in the order of severities: `Trace` is 0, `Error` is 4.
    pub open spec fn rank(self) -> nat {
        match self {
            Severity::Trace => 0,
            Severity::Debug => 1,
            Severity::Info => 2,
            Severity::Warn => 3,
            Severity::Error => 4,
        }
    }

    /// The name under which a record of this severity is printed.
    pub open spec fn name(self) -> Seq<char> {
        match self {
            Severity::Trace => "TRACE"@,
            Severity::Debug => "DEBUG"@,
            Severity::Info => "INFO"@,
            Severity::Warn => "WARN"@,
            Severity::Error => "ERROR"@,
        }
    }

    /// A record of severity `self` is let through where the maximum level is
    /// `threshold`.
    pub open spec fn passes(self, threshold: Severity) -> bool {
        self.rank() >= threshold.rank()
    }

    /// `Trace` is the most permissive threshold: records of every severity
    /// are let through under it.
    pub proof fn lemma_trace_admits_all(severity: Severity)
        ensures
            severity.passes(Severity::Trace),
    {
    }
}

} // verus!
