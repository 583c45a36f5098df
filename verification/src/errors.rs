//! The error kinds the supervisor surfaces to the host application, each with
//! a descriptive message. A missing resource carries the attempted path, so
//! its message lets an operator diagnose a bundling defect.

use vstd::prelude::*;

verus! {

/// Everything that can go wrong in the command surface. All start failures
/// leave the supervisor state unchanged, so a caller may retry after fixing
/// the cause.
#[derive(Debug, PartialEq, Eq)]
pub enum ServerError {
    /// The application's bundled-resource directory could not be determined.
    ResourceDirUnavailable,
    /// A required file does not exist at the resolved path.
    MissingResource { path: String },
    /// Process creation failed; carries the underlying reason.
    LaunchFailed { reason: String },
    /// The exclusive-access primitive is unusable (poisoned).
    LockFailure,
    /// Status was queried while no process is recorded.
    NotRunning,
}

impl ServerError {
    /// The descriptive message shown to the caller. For a missing resource it
    /// is the fixed prefix followed by the exact attempted path; for a failed
    /// launch, the fixed prefix followed by the underlying reason.
    pub fn message(&self) -> (m: String)
        ensures
            *self is ResourceDirUnavailable ==> m@ == "Resource directory unavailable"@,
            (*self matches ServerError::MissingResource { path } ==> m@ == "Resource not found at: "@
                + path@),
            (*self matches ServerError::LaunchFailed { reason } ==> m@ == "Failed to start server: "@
                + reason@),
            *self is LockFailure ==> m@ == "Lock failure"@,
            *self is NotRunning ==> m@ == "Server not running"@,
    {
        match self {
            ServerError::ResourceDirUnavailable => String::from_str("Resource directory unavailable"),
            ServerError::MissingResource { path } => String::from_str("Resource not found at: ")
                .concat(path.as_str()),
            ServerError::LaunchFailed { reason } => String::from_str("Failed to start server: ")
                .concat(reason.as_str()),
            ServerError::LockFailure => String::from_str("Lock failure"),
            ServerError::NotRunning => String::from_str("Server not running"),
        }
    }
}

/// The message of a missing-resource error ends in the exact attempted path:
/// the path stands in the message unabridged.
pub proof fn lemma_missing_resource_message_has_path(path: String, m: String)
    requires
        m@ == "Resource not found at: "@ + path@,
    ensures
        path@.len() <= m@.len(),
        m@.subrange(m@.len() - path@.len(), m@.len() as int) == path@,
{
    assert(m@.subrange(m@.len() - path@.len(), m@.len() as int) =~= path@);
}

} // verus!
