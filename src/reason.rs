use vstd::prelude::*;

verus! {

/// Why a spooler call failed, classified from the system's error code.
#[derive(Clone, Copy, Debug, PartialEq, Eq, Structural)]
pub enum ErrorReason {
    /// The handle was refused; often the printer does not take this data type.
    InvalidHandle,
    /// The caller lacks the rights to print there.
    AccessDenied,
    /// The printer does not exist or is offline.
    NotFound,
    /// Any other code, kept for diagnostics.
    Other(u32),
}

pub const ERROR_FILE_NOT_FOUND: u32 = 2;
pub const ERROR_ACCESS_DENIED: u32 = 5;
pub const ERROR_INVALID_HANDLE: u32 = 6;

pub open spec fn classify_spec(code: u32) -> ErrorReason {
    if code == ERROR_INVALID_HANDLE {
        ErrorReason::InvalidHandle
    } else if code == ERROR_ACCESS_DENIED {
        ErrorReason::AccessDenied
    } else if code == ERROR_FILE_NOT_FOUND {
        ErrorReason::NotFound
    } else {
        ErrorReason::Other(code)
    }
}

/// Classifies a system error code.
pub fn classify(code: u32) -> (r: ErrorReason)
    ensures
        r == classify_spec(code),
{
    if code == ERROR_INVALID_HANDLE {
        ErrorReason::InvalidHandle
    } else if code == ERROR_ACCESS_DENIED {
        ErrorReason::AccessDenied
    } else if code == ERROR_FILE_NOT_FOUND {
        ErrorReason::NotFound
    } else {
        ErrorReason::Other(code)
    }
}

pub open spec fn hint_spec(r: ErrorReason) -> Seq<char> {
    match r {
        ErrorReason::InvalidHandle => "the printer may not support this data type or document format"@,
        ErrorReason::AccessDenied => "permission denied; run as administrator"@,
        ErrorReason::NotFound => "printer not found or offline"@,
        ErrorReason::Other(_) => "unknown error code"@,
    }
}

impl ErrorReason {
    /// A hint for the operator, for diagnostics only.
    pub fn hint(&self) -> (r: &'static str)
        ensures
            r@ == hint_spec(*self),
    {
        match self {
            ErrorReason::InvalidHandle => "the printer may not support this data type or document format",
            ErrorReason::AccessDenied => "permission denied; run as administrator",
            ErrorReason::NotFound => "printer not found or offline",
            ErrorReason::Other(_) => "unknown error code",
        }
    }
}

} // verus!
