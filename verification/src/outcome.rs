//! Failures of the two decoration operations and the messages they carry.
//!
//! Every failure is reported to the caller as one human-readable string:
//! a handle that could not be resolved passes the resolver's own message
//! through unchanged, and a rejected compositor call is reported under a
//! prefix naming the operation, with the platform's diagnostic after it.

use vstd::prelude::*;
use vstd::string::StringExecFns;

verus! {

/// Why a decoration operation failed.
#[derive(Debug, PartialEq, Eq)]
pub enum DecorError {
    /// The host window object could not yield a native window handle.
    /// `detail` is the resolver's own message.
    HandleResolution { detail: String },
    /// The compositor rejected the blending call of the opacity operation.
    /// `detail` is the platform's diagnostic.
    Compositor { detail: String },
    /// The compositor rejected the attribute call of the corner operation.
    /// `detail` is the platform's diagnostic.
    CompositorAttribute { detail: String },
}

/// Prefix of the message reported when the blending call is rejected.
pub open spec fn opacity_failure_prefix() -> Seq<char> {
    "Failed to set window opacity: "@
}

/// Prefix of the message reported when the attribute call is rejected.
pub open spec fn corner_failure_prefix() -> Seq<char> {
    "Failed to set window corner:  "@
}

fn opacity_failure_prefix_str() -> (prefix: &'static str)
    ensures
        prefix@ == opacity_failure_prefix(),
{
    "Failed to set window opacity: "
}

fn corner_failure_prefix_str() -> (prefix: &'static str)
    ensures
        prefix@ == corner_failure_prefix(),
{
    "Failed to set window corner:  "
}

impl DecorError {
    /// The message reported for this failure: a resolution failure passes
    /// its detail through unchanged, a compositor rejection stands under
    /// the prefix naming the operation.
    pub open spec fn message_spec(&self) -> Seq<char> {
        match self {
            DecorError::HandleResolution { detail } => detail@,
            DecorError::Compositor { detail } => opacity_failure_prefix() + detail@,
            DecorError::CompositorAttribute { detail } => corner_failure_prefix() + detail@,
        }
    }

    /// Renders the message handed back to the caller.
    pub fn message(&self) -> (message: String)
        ensures
            message@ == self.message_spec(),
    {
        match self {
            DecorError::HandleResolution { detail } => detail.clone(),
            DecorError::Compositor { detail } => {
                String::from_str(opacity_failure_prefix_str()).concat(detail.as_str())
            },
            DecorError::CompositorAttribute { detail } => {
                String::from_str(corner_failure_prefix_str()).concat(detail.as_str())
            },
        }
    }
}

/// Turns a finished operation's outcome into the result reported to the
/// caller: success as it is, a failure as its message.
pub fn conclude(outcome: Result<(), DecorError>) -> (report: Result<(), String>)
    ensures
        outcome is Ok <==> report is Ok,
        outcome matches Err(failure) ==> report matches Err(message) && message@
            == failure.message_spec(),
{
    match outcome {
        Ok(()) => Ok(()),
        Err(failure) => Err(failure.message()),
    }
}

} // verus!
