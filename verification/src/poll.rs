//! Outcomes of polling.

use vstd::prelude::*;

use crate::error::IoError;
use crate::system::System;

verus! {

/// Whether a value is there yet.
#[derive(Debug, PartialEq, Eq)]
pub enum Poll<T> {
    Ready(T),
    Pending,
}

/// What a handle is watched for.
#[derive(Debug, Clone, Copy, PartialEq, Eq, Structural)]
pub enum Interest {
    Readable,
    Writable,
}

/// What follows a call that does not block: its result, or a wait until the
/// handle is ready for another try.
#[derive(Debug, PartialEq, Eq)]
pub enum Attempt<T> {
    Done(Result<T, IoError>),
    AwaitReadiness(Interest),
}

/// What a call that does not block leads to, if `interest` is what it waits for.
pub open spec fn attempt_spec<T>(result: Result<T, IoError>, interest: Interest) -> Attempt<T> {
    match result {
        Err(error) => if error.would_block() {
            Attempt::AwaitReadiness(interest)
        } else {
            Attempt::Done(result)
        },
        Ok(_) => Attempt::Done(result),
    }
}

/// A call that would block is tried again once the handle is ready; every other
/// result, error or not, is final.
pub fn poll_result_or_wait<T>(result: Result<T, IoError>, interest: Interest) -> (r: Attempt<T>)
    ensures
        r == attempt_spec(result, interest),
{
    match result {
        Ok(value) => Attempt::Done(Ok(value)),
        Err(error) => {
            if error.is_would_block() {
                Attempt::AwaitReadiness(interest)
            } else {
                Attempt::Done(Err(error))
            }
        },
    }
}

/// What registering the wait leads to: a pending operation, or the error of the
/// registration.
pub fn readiness_registered<T>(registered: Result<(), IoError>) -> (r: Poll<Result<T, IoError>>)
    ensures
        r == match registered {
            Ok(_) => Poll::Pending,
            Err(error) => Poll::Ready(Err::<T, IoError>(error)),
        },
{
    match registered {
        Ok(_) => Poll::Pending,
        Err(error) => Poll::Ready(Err(error)),
    }
}

/// A call that does not block is repeated only where it would have had to wait,
/// and then once the handle is ready for what it waits for; otherwise its own
/// result comes out, changed in nothing.
pub proof fn only_calls_that_would_block_wait<T>(
    result: Result<T, IoError>,
    interest: Interest,
    r: Attempt<T>,
)
    requires
        call_ensures(poll_result_or_wait::<T>, (result, interest), r),
    ensures
        r matches Attempt::Done(done) ==> done == result,
        r matches Attempt::AwaitReadiness(awaited) ==> awaited == interest,
        r is AwaitReadiness <==> (result matches Err(error) && match error {
            IoError::Os(System::Linux, code) => code == 11,
            IoError::Os(System::Macos, code) => code == 35,
            IoError::Os(System::Windows, code) => code == 10035,
            IoError::Simple(kind) => kind is WouldBlock,
            IoError::Message(kind, _) => kind is WouldBlock,
        }),
{
}

/// A wait that cannot be registered fails the operation with the error of the
/// registration; any other is pending.
pub proof fn failed_registrations_fail_the_operation<T>(
    registered: Result<(), IoError>,
    r: Poll<Result<T, IoError>>,
)
    requires
        call_ensures(readiness_registered::<T>, (registered,), r),
    ensures
        r is Pending <==> registered is Ok,
        registered matches Err(error) ==> (r matches Poll::Ready(Err(own)) && own == error),
{
}

} // verus!
