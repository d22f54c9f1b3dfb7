//! How grave the events of an installation and of a recovery are, for those who log them.

use vstd::prelude::*;

use crate::errors::HypervisorError;
use crate::recovery::RecoveryError;

verus! {

/// How grave an event is.
#[derive(Clone, Copy, Debug, PartialEq, Eq, Structural)]
pub enum Severity {
    Info,
    Warning,
    Error,
}

impl HypervisorError {
    /// How grave it is that a Wasm execution failed with this error. Only an execution that
    /// ran past the end of its slice is worth a report.
    pub fn severity_in_execution(&self) -> (severity: Option<Severity>)
        ensures
            severity == if self is SliceOverrun {
                Some(Severity::Info)
            } else {
                None
            },
    {
        match self {
            HypervisorError::SliceOverrun { .. } => Some(Severity::Info),
            _ => None,
        }
    }

    /// How grave it is that the changes of a Wasm execution could not be applied for this
    /// error. The memory may have run out while the execution was paused; anything else is
    /// a bug.
    pub fn severity_in_application(&self) -> (severity: Severity)
        ensures
            severity == if self is OutOfMemory {
                Severity::Warning
            } else {
                Severity::Error
            },
    {
        match self {
            HypervisorError::OutOfMemory => Severity::Warning,
            _ => Severity::Error,
        }
    }
}

impl RecoveryError {
    /// How grave it is that a step is passed over for this error. To skip a step is the
    /// choice of the user.
    pub fn severity(&self) -> (severity: Severity)
        ensures
            severity == if self is StepSkipped {
                Severity::Info
            } else {
                Severity::Warning
            },
    {
        match self {
            RecoveryError::StepSkipped => Severity::Info,
            _ => Severity::Warning,
        }
    }
}

} // verus!
