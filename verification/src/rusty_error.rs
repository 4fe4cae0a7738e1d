//! The error taxonomy of the frame loop.
//!
//! The verified core itself never fails — in particular the lane lookup that
//! `LaneNotFound` names is proved total — but the loop around it can: a
//! poisoned shared-speed lock, a closed input channel, or a failed asset load
//! abort the run. The surrounding binary builds these values and decides the
//! run's fate from them.
use vstd::prelude::*;

use vstd::string::StringExecFns;

verus! {

/// A mutex guarding shared state could not be locked: a previous holder
/// panicked, so the value's consistency can no longer be trusted.
#[derive(Debug)]
pub struct LockError {
    pub message: String,
}

/// A directory of assets could not be read during startup.
#[derive(Debug)]
pub struct ReadDirectoryError {
    pub message: String,
}

/// Everything that can abort a frame or the program's launch.
#[derive(Debug)]
pub enum RustyError {
    /// The shared-speed (or input) lock is unusable; fatal for the run.
    RustyLock(LockError),
    /// An asset failed to load during startup; fatal for the launch.
    File,
    /// The input channel closed: the polling thread is gone; fatal.
    Recv,
    /// An asset directory could not be scanned; fatal for the launch.
    ReadDirectory(ReadDirectoryError),
    /// A lane lookup against the fixed three-lane set failed. Must never
    /// occur in correct code; the core's lane functions are proved total, so
    /// nothing in this crate constructs it.
    LaneNotFound,
}

pub type RustyResult<T> = Result<T, RustyError>;

impl RustyError {
    /// A user-readable description, in place of a formatting trait.
    pub fn message(&self) -> (r: String)
        ensures
            self matches RustyError::RustyLock(e) ==> r@ == "Rusty lock error: "@ + e.message@,
            self is LaneNotFound ==> r@ == "Lane not found"@,
    {
        match self {
            RustyError::RustyLock(e) => "Rusty lock error: ".to_string().concat(
                e.message.as_str(),
            ),
            RustyError::LaneNotFound => "Lane not found".to_string(),
            RustyError::File => "".to_string(),
            RustyError::Recv => "".to_string(),
            RustyError::ReadDirectory(_) => "".to_string(),
        }
    }
}

} // verus!
