//! The fatal errors of this layer.
//!
//! Every failure here aborts the whole serialize or materialize call before
//! any partial plan is produced; none is retried internally. The
//! serialize-time checks are deliberately fail-fast on the coordinator so a
//! malformed plan never reaches a worker.

use vstd::prelude::*;

verus! {

/// Why a serialize or materialize call failed.
#[derive(Debug)]
pub enum CubeError {
    /// The plan holds a node kind with no distributed-snapshot
    /// representation (an explain plan, an external-table definition).
    UnsupportedPlan,
    /// The plan holds an extension operator that is neither of the two known
    /// distributed-operator kinds.
    UnrecognizedExtension,
    /// A table scan's source is not the one recognized worker-table kind.
    UnexpectedTableSource,
    /// A user-defined function call whose name the static registry does not
    /// know; carries that name.
    UnknownFunction(String),
}

impl CubeError {
    /// A short description of the error.
    pub fn message(&self) -> (r: String)
        ensures
            match self {
                CubeError::UnknownFunction(n) => r@ == "unknown function: "@ + n@,
                _ => true,
            },
    {
        match self {
            CubeError::UnsupportedPlan => String::from_str("plan not supported in this context"),
            CubeError::UnrecognizedExtension => String::from_str("unrecognized extension operator"),
            CubeError::UnexpectedTableSource => String::from_str("unexpected table source"),
            CubeError::UnknownFunction(n) => {
                let mut s = String::from_str("unknown function: ");
                s.append(n.as_str());
                s
            },
        }
    }
}

} // verus!
