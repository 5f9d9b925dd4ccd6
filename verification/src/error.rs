//! Error kinds of the boundary, and the status codes that carry them
//! across it.
use vstd::prelude::*;

verus! {

/// Why an operation of the boundary failed.
#[derive(Clone, Copy, Debug, PartialEq, Eq, Structural)]
pub enum BoundaryError {
    /// Internal failure of the boundary: the random source, the key
    /// derivation or the creation of the instance.
    Unexpected,
    /// The caller broke the contract of the call: a buffer of the wrong
    /// size, a blob too short to hold a header.
    InvalidParameter,
    /// Authentication or policy verification failed while unsealing.
    IntegrityError,
    /// The call was issued on an instance that is destroyed or was never
    /// created.
    NotInitialized,
    /// The destination buffer cannot take the result.
    OutOfMemory,
}

/// Why a helper outside the boundary failed.
#[derive(Clone, Copy, Debug, PartialEq, Eq, Structural)]
pub enum AppError {
    /// A hexadecimal number was asked of an empty string.
    EmptyHex,
    /// A hexadecimal number holds a character that is no digit of it.
    InvalidHexDigit,
    /// A hexadecimal number is above what 64 bits with a sign can hold.
    HexTooLarge,
    /// A hexadecimal number is below what 64 bits with a sign can hold.
    HexTooSmall,
}

/// Status code of a completed operation.
pub const STATUS_SUCCESS: u32 = 0x0000;

/// Status code of an internal failure.
pub const STATUS_UNEXPECTED: u32 = 0x0001;

/// Status code of a rejected parameter.
pub const STATUS_INVALID_PARAMETER: u32 = 0x0002;

/// Status code of exhausted memory.
pub const STATUS_OUT_OF_MEMORY: u32 = 0x0003;

/// Status code of an instance identifier that names no live instance.
pub const STATUS_INVALID_INSTANCE: u32 = 0x2002;

/// Status code of a failed authentication.
pub const STATUS_MAC_MISMATCH: u32 = 0x3001;

/// The error kind that a status code other than success stands for.
pub open spec fn status_error(status: u32) -> BoundaryError {
    if status == STATUS_INVALID_PARAMETER {
        BoundaryError::InvalidParameter
    } else if status == STATUS_OUT_OF_MEMORY {
        BoundaryError::OutOfMemory
    } else if status == STATUS_INVALID_INSTANCE {
        BoundaryError::NotInitialized
    } else if status == STATUS_MAC_MISMATCH {
        BoundaryError::IntegrityError
    } else {
        BoundaryError::Unexpected
    }
}

/// What a status code means: success, or the error it stands for.
pub open spec fn status_outcome(status: u32) -> Result<(), BoundaryError> {
    if status == STATUS_SUCCESS {
        Ok(())
    } else {
        Err(status_error(status))
    }
}

/// The status code that reports an error kind.
pub open spec fn error_status(error: BoundaryError) -> u32 {
    match error {
        BoundaryError::Unexpected => STATUS_UNEXPECTED,
        BoundaryError::InvalidParameter => STATUS_INVALID_PARAMETER,
        BoundaryError::IntegrityError => STATUS_MAC_MISMATCH,
        BoundaryError::NotInitialized => STATUS_INVALID_INSTANCE,
        BoundaryError::OutOfMemory => STATUS_OUT_OF_MEMORY,
    }
}

/// What two status codes of one call mean together: the code of the
/// crossing itself and the code that the operation set inside the
/// boundary. A failed crossing wins; a crossing that succeeded around a
/// failed operation is that operation's failure.
pub open spec fn call_outcome(crossing: u32, inner: u32) -> Result<(), BoundaryError> {
    if crossing != STATUS_SUCCESS {
        Err(status_error(crossing))
    } else {
        status_outcome(inner)
    }
}

impl BoundaryError {
    /// Reads a status code.
    pub fn from_status(status: u32) -> (outcome: Result<(), BoundaryError>)
        ensures
            outcome == status_outcome(status),
    {
        if status == STATUS_SUCCESS {
            Ok(())
        } else if status == STATUS_INVALID_PARAMETER {
            Err(BoundaryError::InvalidParameter)
        } else if status == STATUS_OUT_OF_MEMORY {
            Err(BoundaryError::OutOfMemory)
        } else if status == STATUS_INVALID_INSTANCE {
            Err(BoundaryError::NotInitialized)
        } else if status == STATUS_MAC_MISMATCH {
            Err(BoundaryError::IntegrityError)
        } else {
            Err(BoundaryError::Unexpected)
        }
    }

    /// The status code that reports this error.
    pub fn status(&self) -> (code: u32)
        ensures
            code == error_status(*self),
            code != STATUS_SUCCESS,
            status_outcome(code) == Err::<(), BoundaryError>(*self),
    {
        match self {
            BoundaryError::Unexpected => STATUS_UNEXPECTED,
            BoundaryError::InvalidParameter => STATUS_INVALID_PARAMETER,
            BoundaryError::IntegrityError => STATUS_MAC_MISMATCH,
            BoundaryError::NotInitialized => STATUS_INVALID_INSTANCE,
            BoundaryError::OutOfMemory => STATUS_OUT_OF_MEMORY,
        }
    }
}

/// Checks both status codes of a call.
pub fn check_call_status(crossing: u32, inner: u32) -> (outcome: Result<(), BoundaryError>)
    ensures
        outcome == call_outcome(crossing, inner),
{
    match BoundaryError::from_status(crossing) {
        Err(error) => Err(error),
        Ok(()) => BoundaryError::from_status(inner),
    }
}

} // verus!
