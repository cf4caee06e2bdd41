//! Errors of I/O operations.

use vstd::prelude::*;

use crate::system::System;

verus! {

/// What sort of failure an error reports.
#[derive(Debug, Clone, Copy, PartialEq, Eq, Structural)]
pub enum ErrorKind {
    AddrInUse,
    AddrNotAvailable,
    AlreadyExists,
    ArgumentListTooLong,
    BrokenPipe,
    ConnectionAborted,
    ConnectionRefused,
    ConnectionReset,
    Deadlock,
    DirectoryNotEmpty,
    ExecutableFileBusy,
    FileTooLarge,
    HostUnreachable,
    Interrupted,
    InvalidData,
    InvalidInput,
    IsADirectory,
    NetworkDown,
    NetworkUnreachable,
    NotADirectory,
    NotConnected,
    NotFound,
    NotSeekable,
    Other,
    OutOfMemory,
    PermissionDenied,
    QuotaExceeded,
    ReadOnlyFilesystem,
    ResourceBusy,
    StaleNetworkFileHandle,
    StorageFull,
    TimedOut,
    TooManyLinks,
    UnexpectedEof,
    Unsupported,
    WouldBlock,
    WriteZero,
}

/// An error of an I/O operation: a code of an operating system, or a kind, alone
/// or with a message.
#[derive(Debug, Clone, Copy, PartialEq, Eq)]
pub enum IoError {
    Os(System, i32),
    Simple(ErrorKind),
    Message(ErrorKind, &'static str),
}

impl IoError {
    /// The call would have had to wait.
    pub open spec fn would_block(self) -> bool {
        match self {
            IoError::Os(system, code) => code == system.would_block(),
            IoError::Simple(kind) => kind == ErrorKind::WouldBlock,
            IoError::Message(kind, _) => kind == ErrorKind::WouldBlock,
        }
    }

    /// A signal cut the call short.
    pub open spec fn interrupted(self) -> bool {
        match self {
            IoError::Os(system, code) => system.interrupted() == Some(code),
            IoError::Simple(kind) => kind == ErrorKind::Interrupted,
            IoError::Message(kind, _) => kind == ErrorKind::Interrupted,
        }
    }

    /// The code of the operating system, where the error is one.
    pub open spec fn code(self) -> Option<i32> {
        match self {
            IoError::Os(_, code) => Some(code),
            _ => None,
        }
    }

    pub fn is_would_block(&self) -> (r: bool)
        ensures
            r == self.would_block(),
    {
        match self {
            IoError::Os(system, code) => *code == system.would_block(),
            IoError::Simple(kind) => *kind == ErrorKind::WouldBlock,
            IoError::Message(kind, _) => *kind == ErrorKind::WouldBlock,
        }
    }

    pub fn is_interrupted(&self) -> (r: bool)
        ensures
            r == self.interrupted(),
    {
        match self {
            IoError::Os(system, code) => match system.interrupted() {
                Some(interrupted) => *code == interrupted,
                None => false,
            },
            IoError::Simple(kind) => *kind == ErrorKind::Interrupted,
            IoError::Message(kind, _) => *kind == ErrorKind::Interrupted,
        }
    }

    /// The code of the operating system, where the error is one.
    pub fn raw_os_error(&self) -> (r: Option<i32>)
        ensures
            r == self.code(),
    {
        match self {
            IoError::Os(_, code) => Some(*code),
            _ => None,
        }
    }

    /// The kind that was given to the error; `None` for a code of the operating
    /// system, whose kind is the platform's to tell.
    pub fn kind(&self) -> (r: Option<ErrorKind>)
        ensures
            r == match *self {
                IoError::Os(_, _) => None,
                IoError::Simple(kind) => Some(kind),
                IoError::Message(kind, _) => Some(kind),
            },
    {
        match self {
            IoError::Os(_, _) => None,
            IoError::Simple(kind) => Some(*kind),
            IoError::Message(kind, _) => Some(*kind),
        }
    }

    /// The message of the error, where it has one.
    pub fn message(&self) -> (r: Option<&'static str>)
        ensures
            r == match *self {
                IoError::Message(_, text) => Some(text),
                _ => None,
            },
    {
        match self {
            IoError::Message(_, text) => Some(*text),
            _ => None,
        }
    }
}

/// What a completion that reports no count means: the negated code of the
/// operating system, where it is one.
pub open spec fn completion_error_spec(system: System, result: i32) -> IoError {
    if i32::MIN < result < 0 {
        IoError::Os(system, (-result) as i32)
    } else {
        IoError::Simple(ErrorKind::InvalidData)
    }
}

/// Decode a completion that failed. A result that is no negated code, the one
/// that cannot be negated among them, is invalid data.
pub fn completion_error(system: System, result: i32) -> (r: IoError)
    ensures
        r == completion_error_spec(system, result),
{
    if i32::MIN < result && result < 0 {
        IoError::Os(system, -result)
    } else {
        IoError::Simple(ErrorKind::InvalidData)
    }
}

/// Every code of the operating system survives the trip through a completion.
pub proof fn completion_codes_round_trip(system: System, code: i32)
    requires
        0 < code,
    ensures
        completion_error_spec(system, (-code) as i32) == IoError::Os(system, code),
{
}

/// What an error means is told by the code of its own system, or by its kind.
pub proof fn errors_mean_what_they_say(
    error: IoError,
    would_block: bool,
    interrupted: bool,
    code: Option<i32>,
    kind: Option<ErrorKind>,
    text: Option<&'static str>,
)
    requires
        call_ensures(IoError::is_would_block, (&error,), would_block),
        call_ensures(IoError::is_interrupted, (&error,), interrupted),
        call_ensures(IoError::raw_os_error, (&error,), code),
        call_ensures(IoError::kind, (&error,), kind),
        call_ensures(IoError::message, (&error,), text),
    ensures
        would_block == error.would_block() && interrupted == error.interrupted() && code
            == error.code(),
        error matches IoError::Os(System::Linux, number) ==> would_block == (number == 11)
            && interrupted == (number == 4) && code == Some(number),
        error matches IoError::Os(System::Macos, number) ==> would_block == (number == 35)
            && interrupted == (number == 4) && code == Some(number),
        error matches IoError::Os(System::Windows, number) ==> would_block == (number == 10035)
            && !interrupted && code == Some(number),
        error is Os ==> kind is None && text is None,
        error matches IoError::Simple(own) ==> would_block == (own is WouldBlock) && interrupted
            == (own is Interrupted) && code is None && kind == Some(own) && text is None,
        error matches IoError::Message(own, words) ==> would_block == (own is WouldBlock)
            && interrupted == (own is Interrupted) && code is None && kind == Some(own) && text
            == Some(words),
{
}

/// A completion that failed carries its code negated. What is no such code is
/// invalid data, and never passes for a code.
pub proof fn failed_completions_carry_their_code(system: System, result: i32, r: IoError)
    requires
        call_ensures(completion_error, (system, result), r),
    ensures
        r matches IoError::Os(own, code) ==> own == system && code > 0 && code + result == 0,
        r is Os <==> i32::MIN < result < 0,
        !(r is Os) ==> r == IoError::Simple(ErrorKind::InvalidData),
{
}

} // verus!
