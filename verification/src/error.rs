//! Error taxonomy of the authentication subsystem.

use vstd::prelude::*;

verus! {

/// Collaborator-style code for an argument the subsystem itself rejects,
/// such as an empty persistent write.
pub const ERR_INVALID_ARG: i32 = 0x102;

/// Collaborator-style code for a failure the external authentication
/// service reports without detail.
pub const ERR_SERVICE_FAILED: i32 = -1;

/// Every failure the subsystem can surface, one closed set for the card
/// driver, the credential store and the orchestrator.
#[derive(Clone, Copy, Debug, PartialEq, Eq, Structural)]
pub enum AuthError {
    /// No readiness signal or no response arrived within the timeout
    /// budget.  Expected while polling with no credential present, so
    /// callers treat it apart from the other kinds.
    TimeoutResponse,
    /// A response arrived but is structurally invalid for the command
    /// issued: wrong detected-target count, bad checksum, nonzero status
    /// nibble, or a malformed frame.
    BadResponseFrame,
    /// The underlying bus or storage transaction itself failed; carries
    /// the collaborator's error code.
    InterfaceError(i32),
    /// Enrollment input holds a character that is not a hexadecimal
    /// digit; rejected before any hardware interaction.
    InvalidDigit,
    /// A persistent write went through but the read-back did not match
    /// what was written.
    VerificationFailed,
    /// An operation was attempted before initialization succeeded.
    NotInitialized,
}

impl AuthError {
    /// Short description of the error kind, for logging by the embedding
    /// application.
    pub fn describe(&self) -> (r: &'static str)
        ensures
            r@.len() > 0,
    {
        proof {
            reveal_strlit("no response within the timeout budget");
            reveal_strlit("malformed response frame");
            reveal_strlit("bus or storage transaction failed");
            reveal_strlit("input is not hexadecimal");
            reveal_strlit("persistent write read-back mismatched");
            reveal_strlit("subsystem is not initialized");
        }
        match self {
            AuthError::TimeoutResponse => "no response within the timeout budget",
            AuthError::BadResponseFrame => "malformed response frame",
            AuthError::InterfaceError(_) => "bus or storage transaction failed",
            AuthError::InvalidDigit => "input is not hexadecimal",
            AuthError::VerificationFailed => "persistent write read-back mismatched",
            AuthError::NotInitialized => "subsystem is not initialized",
        }
    }

    /// Whether the error is the one absorbed during normal idle polling.
    pub fn is_timeout(&self) -> (r: bool)
        ensures
            r == (*self is TimeoutResponse),
    {
        matches!(self, AuthError::TimeoutResponse)
    }
}

} // verus!
