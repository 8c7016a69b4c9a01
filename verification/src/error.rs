//! The closed set of failures, and which of them each host error code means.

use vstd::prelude::*;

verus! {

/// Why an operation on a junction failed.
#[derive(Clone, Copy, Debug, PartialEq, Eq, Structural)]
pub enum JunctionError {
    /// The path does not exist.
    NotFound,
    /// The path exists but carries no mount-point reparse record.
    NotAJunction,
    /// The junction path is already taken by some entry.
    AlreadyExists,
    /// The target could not be brought into absolute form.
    TargetInvalid,
    /// The encoded target would not fit the largest reparse record.
    BufferTooLarge,
    /// A reparse record was read whose lengths contradict each other.
    CorruptData,
    /// Any other failure of the host, with the host's code unchanged.
    Io(u32),
}

/// The host could not find the file.
pub const ERROR_FILE_NOT_FOUND: u32 = 2;

/// The host could not find a directory on the way to the file.
pub const ERROR_PATH_NOT_FOUND: u32 = 3;

/// The host found a file where none was expected.
pub const ERROR_FILE_EXISTS: u32 = 80;

/// The host found an entry where a new one was to be made.
pub const ERROR_ALREADY_EXISTS: u32 = 183;

/// The entry carries no reparse record.
pub const ERROR_NOT_A_REPARSE_POINT: u32 = 4390;

/// The reparse record handed to the host is malformed.
pub const ERROR_INVALID_REPARSE_DATA: u32 = 4392;

/// The tag of the reparse record is not one the host accepts.
pub const ERROR_REPARSE_TAG_INVALID: u32 = 4393;

/// The entry carries a reparse record of another kind than the one named.
pub const ERROR_REPARSE_TAG_MISMATCH: u32 = 4394;

/// The failure that a host error code stands for.
pub open spec fn classified(code: u32) -> JunctionError {
    if code == ERROR_FILE_NOT_FOUND || code == ERROR_PATH_NOT_FOUND {
        JunctionError::NotFound
    } else if code == ERROR_FILE_EXISTS || code == ERROR_ALREADY_EXISTS {
        JunctionError::AlreadyExists
    } else if code == ERROR_NOT_A_REPARSE_POINT || code == ERROR_REPARSE_TAG_INVALID || code
        == ERROR_REPARSE_TAG_MISMATCH {
        JunctionError::NotAJunction
    } else if code == ERROR_INVALID_REPARSE_DATA {
        JunctionError::CorruptData
    } else {
        JunctionError::Io(code)
    }
}

/// Names the failure that a host error code stands for. Codes that this
/// library gives no meaning to are kept as they are.
pub fn classify(code: u32) -> (kind: JunctionError)
    ensures
        kind == classified(code),
{
    if code == ERROR_FILE_NOT_FOUND || code == ERROR_PATH_NOT_FOUND {
        JunctionError::NotFound
    } else if code == ERROR_FILE_EXISTS || code == ERROR_ALREADY_EXISTS {
        JunctionError::AlreadyExists
    } else if code == ERROR_NOT_A_REPARSE_POINT || code == ERROR_REPARSE_TAG_INVALID || code
        == ERROR_REPARSE_TAG_MISMATCH {
        JunctionError::NotAJunction
    } else if code == ERROR_INVALID_REPARSE_DATA {
        JunctionError::CorruptData
    } else {
        JunctionError::Io(code)
    }
}

impl JunctionError {
    /// The host error code that stands for this failure. The two failures
    /// that this library finds by itself, before the host is asked, have
    /// none.
    pub open spec fn spec_host_code(self) -> Option<u32> {
        match self {
            JunctionError::NotFound => Some(ERROR_FILE_NOT_FOUND),
            JunctionError::NotAJunction => Some(ERROR_NOT_A_REPARSE_POINT),
            JunctionError::AlreadyExists => Some(ERROR_ALREADY_EXISTS),
            JunctionError::CorruptData => Some(ERROR_INVALID_REPARSE_DATA),
            JunctionError::Io(code) => Some(code),
            JunctionError::TargetInvalid => None,
            JunctionError::BufferTooLarge => None,
        }
    }

    /// The host error code to report this failure with, where it has one.
    #[verifier::when_used_as_spec(spec_host_code)]
    pub fn host_code(self) -> (code: Option<u32>)
        ensures
            code == self.spec_host_code(),
    {
        match self {
            JunctionError::NotFound => Some(ERROR_FILE_NOT_FOUND),
            JunctionError::NotAJunction => Some(ERROR_NOT_A_REPARSE_POINT),
            JunctionError::AlreadyExists => Some(ERROR_ALREADY_EXISTS),
            JunctionError::CorruptData => Some(ERROR_INVALID_REPARSE_DATA),
            JunctionError::Io(code) => Some(code),
            JunctionError::TargetInvalid => None,
            JunctionError::BufferTooLarge => None,
        }
    }
}

/// Every failure that a host code stands for has a host code, and that code
/// stands for the same failure.
pub proof fn lemma_host_code_of_classified(code: u32)
    ensures
        classified(code).host_code() matches Some(back) && classified(back) == classified(code),
{
}

} // verus!
