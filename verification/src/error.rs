//! The error taxonomy. Every failure is surfaced verbatim to the caller and
//! no handler mutates the slot when it fails.

use vstd::prelude::*;

verus! {

/// Business-rule failures raised by validation before any mutation.
#[derive(Clone, Copy, Debug, PartialEq, Eq, Structural)]
pub enum UserManagerError {
    InvalidInstruction,
    NotInitialized,
    AlreadyInitialized,
    UsernameTooLong,
    EmailTooLong,
    InvalidEmail,
    Unauthorized,
    InvalidPrivacyLevel,
    InsufficientFunds,
}

impl UserManagerError {
    /// The numeric code under which the host runtime reports this error
    /// (the position of the variant in the taxonomy).
    pub open spec fn spec_code(self) -> u32 {
        match self {
            UserManagerError::InvalidInstruction => 0,
            UserManagerError::NotInitialized => 1,
            UserManagerError::AlreadyInitialized => 2,
            UserManagerError::UsernameTooLong => 3,
            UserManagerError::EmailTooLong => 4,
            UserManagerError::InvalidEmail => 5,
            UserManagerError::Unauthorized => 6,
            UserManagerError::InvalidPrivacyLevel => 7,
            UserManagerError::InsufficientFunds => 8,
        }
    }

    pub fn code(&self) -> (r: u32)
        ensures
            r == self.spec_code(),
    {
        match self {
            UserManagerError::InvalidInstruction => 0,
            UserManagerError::NotInitialized => 1,
            UserManagerError::AlreadyInitialized => 2,
            UserManagerError::UsernameTooLong => 3,
            UserManagerError::EmailTooLong => 4,
            UserManagerError::InvalidEmail => 5,
            UserManagerError::Unauthorized => 6,
            UserManagerError::InvalidPrivacyLevel => 7,
            UserManagerError::InsufficientFunds => 8,
        }
    }
}

/// Structural failure of the record codec: the buffer is too short, a string
/// length prefix reaches past its end, or a tag byte is out of range.
#[derive(Clone, Copy, Debug, PartialEq, Eq, Structural)]
pub struct DecodeError;

/// Everything a processor entry point can fail with: a business-rule error,
/// or one of the conditions the host boundary raises.
#[derive(Clone, Copy, Debug, PartialEq, Eq, Structural)]
pub enum ProcessError {
    User(UserManagerError),
    MissingRequiredSignature,
    IncorrectProgramId,
    ArithmeticOverflow,
    Decode(DecodeError),
    BufferTooSmall,
}

} // verus!
