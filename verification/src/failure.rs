//! Failures that the operating system reports to the supervisor.

use vstd::prelude::*;

verus! {

/// What the operating system said when a spawn, a kill or a read failed.
#[derive(Debug)]
pub struct OsFailure {
    /// The raw error number, where the system gave one.
    pub code: Option<i32>,
    /// The system's description of the failure.
    pub message: String,
}

} // verus!
