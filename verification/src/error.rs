//! Why an intercepted call fails, and the code its caller gets.

use vstd::prelude::*;

verus! {

/// A failure of an intercepted call before the genuine implementation ran.
#[derive(Clone, Copy, Debug, PartialEq, Eq, Structural)]
pub enum ExecError {
    /// The target file cannot be opened or read.
    Access,
    /// The target is not an ELF executable that can be read.
    Format,
    /// The target is an ELF executable for a machine outside the table.
    UnsupportedArchitecture,
    /// A bare program name was not found on the search path.
    NameUnresolved,
    /// No emulator launcher was found for a foreign target.
    LauncherMissing,
    /// The genuine implementation of the intercepted symbol was not found.
    SymbolMissing,
    /// A string that had to cross to C holds a NUL.
    EmbeddedNul,
    /// An answer came that the interception had not asked for.
    UnexpectedAnswer,
}

/// The two standard errors that a failure is reported as.
#[derive(Clone, Copy, Debug, PartialEq, Eq, Structural)]
pub enum ErrorCode {
    /// "Permission denied".
    PermissionDenied,
    /// "Exec format error".
    ExecFormat,
}

/// The standard error under which `error` is reported: an access failure as
/// "permission denied", everything else as "exec format error".
pub open spec fn error_code(error: ExecError) -> ErrorCode {
    if error == ExecError::Access {
        ErrorCode::PermissionDenied
    } else {
        ErrorCode::ExecFormat
    }
}

/// The number that stands for `code` on a platform whose numbers for "permission
/// denied" and "exec format error" are the two given.
pub open spec fn number_of(code: ErrorCode, permission_denied: i32, exec_format: i32) -> i32 {
    match code {
        ErrorCode::PermissionDenied => permission_denied,
        ErrorCode::ExecFormat => exec_format,
    }
}

/// The platform's number for "permission denied".
///
/// Trusted: reads the constant `libc::EACCES`, of which only that it is not zero is
/// taken for granted; its value differs between platforms.
#[verifier::external_body]
fn permission_denied_number() -> (number: i32)
    ensures
        number != 0,
{
    libc::EACCES
}

/// The platform's number for "exec format error".
///
/// Trusted: reads the constant `libc::ENOEXEC`, of which only that it is not zero is
/// taken for granted; its value differs between platforms.
#[verifier::external_body]
fn exec_format_number() -> (number: i32)
    ensures
        number != 0,
{
    libc::ENOEXEC
}

impl ExecError {
    /// The standard error under which this failure is reported.
    pub fn code(&self) -> (code: ErrorCode)
        ensures
            code == error_code(*self),
    {
        match self {
            ExecError::Access => ErrorCode::PermissionDenied,
            _ => ErrorCode::ExecFormat,
        }
    }
}

impl ErrorCode {
    /// Picks the number for this code from a platform's two numbers.
    pub fn number_among(&self, permission_denied: i32, exec_format: i32) -> (number: i32)
        ensures
            number == number_of(*self, permission_denied, exec_format),
    {
        match self {
            ErrorCode::PermissionDenied => permission_denied,
            ErrorCode::ExecFormat => exec_format,
        }
    }

    /// The platform's error number for this code; never zero. Which number it is
    /// depends on the platform: it is `number_among` of the platform's own two.
    pub fn errno(&self) -> (number: i32)
        ensures
            number != 0,
    {
        self.number_among(permission_denied_number(), exec_format_number())
    }
}

} // verus!
