//! Status codes of the operating system and what they mean to a read.

use vstd::prelude::*;

verus! {

/// The status of a completion whose read started at or past the end of the
/// file.
pub const STATUS_END_OF_FILE: u32 = 0xC000_0011;

/// The code of a submission that is refused at once because it starts at or
/// past the end of the file.
pub const ERROR_HANDLE_EOF: u32 = 38;

/// The code of a submission that was queued and will complete later.
pub const ERROR_IO_PENDING: u32 = 997;

/// The code for a file that does not exist.
pub const ERROR_FILE_NOT_FOUND: u32 = 2;

/// The code for a path of which some directory does not exist.
pub const ERROR_PATH_NOT_FOUND: u32 = 3;

/// The code for an access that the system denies.
pub const ERROR_ACCESS_DENIED: u32 = 5;

/// Why an open, a read or a close failed.
#[derive(Clone, Copy, Debug, PartialEq, Eq, Structural)]
pub enum Error {
    /// The file or a directory of its path does not exist.
    NotFound,
    /// The system denies the access.
    PermissionDenied,
    /// A read is still outstanding on the handle.
    Busy,
    /// Any other failure, with the code of the operating system.
    OsError(u32),
}

/// What a status means to the read that waits for it.
#[derive(Clone, Copy, Debug, PartialEq, Eq, Structural)]
pub enum Completion {
    /// The transfer succeeded; the read goes on.
    Success,
    /// The read started at or past the end of the file: it is over, with
    /// success.
    EndOfFile,
    /// The transfer failed; the read is over.
    Failed(Error),
}

/// The error that stands for a failure code of the operating system.
pub open spec fn error_of(code: u32) -> Error {
    if code == ERROR_FILE_NOT_FOUND || code == ERROR_PATH_NOT_FOUND {
        Error::NotFound
    } else if code == ERROR_ACCESS_DENIED {
        Error::PermissionDenied
    } else {
        Error::OsError(code)
    }
}

/// Whether a code says that a read started at or past the end of the file.
/// The operating system has two numbers for it: one that a completion
/// carries and one that it answers to a submission.
pub open spec fn is_end_of_file(code: u32) -> bool {
    code == STATUS_END_OF_FILE || code == ERROR_HANDLE_EOF
}

/// The meaning of a status: the end of the file ends the read with success,
/// every other status but zero is a failure.
pub open spec fn meaning_of(status: u32) -> Completion {
    if is_end_of_file(status) {
        Completion::EndOfFile
    } else if status != 0 {
        Completion::Failed(error_of(status))
    } else {
        Completion::Success
    }
}

/// The bits of the `HRESULT` that stands for a code of the operating system:
/// zero and every code with the top bit set stand for themselves, and of any
/// other code the low sixteen bits are kept and marked as a failure of the
/// operating system.
spec fn hresult_of(code: u32) -> u32 {
    if code == 0 || code >= 0x8000_0000 {
        code
    } else {
        (code & 0x0000_FFFF) | 0x8007_0000
    }
}

/// The one `HRESULT` that a `windows_core::Error` does not give back as it
/// got it: the error keeps it in place of zero.
const EMPTY_ERROR: u32 = 0x535F_4F4B;

/// `windows_core::HRESULT::from_win32`, with the `HRESULT` taken as its 32
/// bits. The function keeps a code that is zero or negative as a signed
/// number, and maps any other to its low sixteen bits with the bits
/// `0x80070000` set.
#[verifier::external_body]
fn hresult_from_win32(code: u32) -> (bits: u32)
    ensures
        bits == hresult_of(code),
{
    windows_core::HRESULT::from_win32(code).0 as u32
}

/// `windows_core::Error::from` on an `HRESULT`, then `Error::code`, with the
/// `HRESULT` taken as its 32 bits on both sides. The error keeps zero as
/// [`EMPTY_ERROR`] and gives [`EMPTY_ERROR`] back as zero, so that every
/// `HRESULT` but [`EMPTY_ERROR`] comes back as it went in.
#[verifier::external_body]
fn error_code(bits: u32) -> (code: u32)
    ensures
        code == if bits == EMPTY_ERROR {
            0
        } else {
            bits
        },
{
    windows_core::Error::from(windows_core::HRESULT(bits as i32)).code().0 as u32
}

/// `windows_core::HRESULT::is_err`, with the `HRESULT` taken as its 32 bits:
/// an `HRESULT` is a failure where it is negative, which is where its top
/// bit is set.
#[verifier::external_body]
fn hresult_is_err(bits: u32) -> (failed: bool)
    ensures
        failed == (bits >= 0x8000_0000),
{
    windows_core::HRESULT(bits as i32).is_err()
}

/// Whether a status is a failure: it is made an `HRESULT`, wrapped in an
/// error, and the code of the error is asked. Every status but zero is one.
fn is_failure(status: u32) -> (failed: bool)
    ensures
        failed == (status != 0),
{
    let bits = hresult_from_win32(status);
    assert(status != 0 && status < 0x8000_0000 ==> (status & 0x0000_FFFF) | 0x8007_0000
        >= 0x8000_0000) by (bit_vector);
    hresult_is_err(error_code(bits))
}

impl Error {
    /// Maps a failure code of the operating system to an error.
    pub fn from_os_code(code: u32) -> (error: Error)
        ensures
            error == error_of(code),
    {
        if code == ERROR_FILE_NOT_FOUND || code == ERROR_PATH_NOT_FOUND {
            Error::NotFound
        } else if code == ERROR_ACCESS_DENIED {
            Error::PermissionDenied
        } else {
            Error::OsError(code)
        }
    }
}

/// Says what a status means.
pub fn classify(status: u32) -> (meaning: Completion)
    ensures
        meaning == meaning_of(status),
{
    if status == STATUS_END_OF_FILE || status == ERROR_HANDLE_EOF {
        Completion::EndOfFile
    } else if is_failure(status) {
        Completion::Failed(Error::from_os_code(status))
    } else {
        Completion::Success
    }
}

} // verus!
