//! Waiting for a child process by a descriptor of it.

use vstd::prelude::*;

use crate::error::{ErrorKind, IoError};
use crate::poll::Interest;

verus! {

/// How far a wait has come. `H` is the descriptor of the process with its
/// registration, which ends when it is dropped.
pub enum WaitPidState<H> {
    /// The descriptor has not been opened yet.
    Init { pid: i32 },
    /// The descriptor is open and registered.
    Polling { pid: i32, handle: H },
    /// The result has been handed out.
    Done,
}

/// A wait for the exit of a child process. The descriptor becomes readable when
/// the child exits, so that nothing polls for it.
pub struct WaitPidOp<H> {
    pub state: WaitPidState<H>,
}

/// What a wait hears of.
pub enum WaitEvent<H> {
    /// The operation is polled.
    Polled,
    /// The descriptor was opened and registered.
    Opened(Result<H, IoError>),
    /// The child was asked for its status, without waiting.
    Reaped(Result<i32, IoError>),
    /// The wait for the descriptor was registered.
    Armed(Result<(), IoError>),
}

/// What a wait does next.
#[derive(Debug, Clone, Copy, PartialEq, Eq)]
pub enum WaitStep {
    /// Open a descriptor of the process and register it.
    Open { pid: i32 },
    /// Ask the child for its status, without waiting.
    Reap { pid: i32 },
    /// Wait until the descriptor is ready.
    AwaitReadiness(Interest),
    Pending,
    Ready(Result<i32, IoError>),
}

pub open spec fn still_running() -> IoError {
    IoError::Message(ErrorKind::WouldBlock, "child has not exited yet")
}

pub open spec fn already_completed() -> IoError {
    IoError::Message(ErrorKind::Other, "WaitPidOp already completed")
}

/// What asking a child for its status, without waiting, comes to: `reaped` is the
/// process that was reaped, zero for none, and `status` its status.
pub fn reap_result(reaped: Result<i32, IoError>, status: i32) -> (r: Result<i32, IoError>)
    requires
        reaped matches Ok(process) ==> process >= 0,
    ensures
        r == match reaped {
            Ok(process) => if process == 0 {
                Err::<i32, IoError>(still_running())
            } else {
                Ok(status)
            },
            Err(error) => Err(error),
        },
{
    match reaped {
        Ok(process) => {
            if process == 0 {
                Err(IoError::Message(ErrorKind::WouldBlock, "child has not exited yet"))
            } else {
                Ok(status)
            }
        },
        Err(error) => Err(error),
    }
}

/// The state and step that follow an event.
pub open spec fn wait_step<H>(state: WaitPidState<H>, event: WaitEvent<H>) -> (
    WaitPidState<H>,
    WaitStep,
) {
    match (state, event) {
        (WaitPidState::Done, _) => (state, WaitStep::Ready(Err(already_completed()))),
        (WaitPidState::Init { pid }, WaitEvent::Opened(Ok(handle))) => (
            WaitPidState::Polling { pid, handle },
            WaitStep::Reap { pid },
        ),
        (WaitPidState::Init { pid }, WaitEvent::Opened(Err(error))) => (
            state,
            WaitStep::Ready(Err(error)),
        ),
        (WaitPidState::Init { pid }, _) => (state, WaitStep::Open { pid }),
        (WaitPidState::Polling { pid, handle }, WaitEvent::Reaped(Err(error))) => if error.would_block() {
            (state, WaitStep::AwaitReadiness(Interest::Readable))
        } else {
            (WaitPidState::Done, WaitStep::Ready(Err(error)))
        },
        (WaitPidState::Polling { pid, handle }, WaitEvent::Reaped(Ok(status))) => (
            WaitPidState::Done,
            WaitStep::Ready(Ok(status)),
        ),
        (WaitPidState::Polling { pid, handle }, WaitEvent::Armed(Ok(_))) => (
            state,
            WaitStep::Pending,
        ),
        (WaitPidState::Polling { pid, handle }, WaitEvent::Armed(Err(error))) => (
            state,
            WaitStep::Ready(Err(error)),
        ),
        (WaitPidState::Polling { pid, handle }, _) => (state, WaitStep::Reap { pid }),
    }
}

impl<H> WaitPidOp<H> {
    /// A wait for the child of the given number.
    pub fn new(pid: u32) -> (r: Self)
        ensures
            r.state == (WaitPidState::<H>::Init { pid: pid as i32 }),
    {
        WaitPidOp { state: WaitPidState::Init { pid: #[verifier::truncate] (pid as i32) } }
    }

    /// Go on by one step. The status is asked for each time before the wait is
    /// armed, so a spurious wake arms it again; whichever way the driver runs
    /// operations, the descriptor is watched for readiness.
    pub fn poll(&mut self, event: WaitEvent<H>) -> (r: WaitStep)
        ensures
            (final(self).state, r) == wait_step(old(self).state, event),
    {
        let state = self.take_state();
        match state {
            WaitPidState::Done => WaitStep::Ready(
                Err(IoError::Message(ErrorKind::Other, "WaitPidOp already completed")),
            ),
            WaitPidState::Init { pid } => match event {
                WaitEvent::Opened(opened) => match opened {
                    Ok(handle) => {
                        self.state = WaitPidState::Polling { pid, handle };
                        WaitStep::Reap { pid }
                    },
                    Err(error) => {
                        self.state = WaitPidState::Init { pid };
                        WaitStep::Ready(Err(error))
                    },
                },
                _ => {
                    self.state = WaitPidState::Init { pid };
                    WaitStep::Open { pid }
                },
            },
            WaitPidState::Polling { pid, handle } => match event {
                WaitEvent::Reaped(reaped) => match reaped {
                    Ok(status) => WaitStep::Ready(Ok(status)),
                    Err(error) => {
                        if error.is_would_block() {
                            self.state = WaitPidState::Polling { pid, handle };
                            WaitStep::AwaitReadiness(Interest::Readable)
                        } else {
                            WaitStep::Ready(Err(error))
                        }
                    },
                },
                WaitEvent::Armed(armed) => {
                    self.state = WaitPidState::Polling { pid, handle };
                    match armed {
                        Ok(_) => WaitStep::Pending,
                        Err(error) => WaitStep::Ready(Err(error)),
                    }
                },
                _ => {
                    self.state = WaitPidState::Polling { pid, handle };
                    WaitStep::Reap { pid }
                },
            },
        }
    }

    fn take_state(&mut self) -> (r: WaitPidState<H>)
        ensures
            r == old(self).state,
            final(self).state is Done,
    {
        let mut state = WaitPidState::Done;
        core::mem::swap(&mut self.state, &mut state);
        state
    }
}

/// A result is handed out once: whatever a wait that is over hears, it says that
/// it has completed.
pub proof fn wait_completes_once<H>(
    state: WaitPidState<H>,
    event: WaitEvent<H>,
    later: WaitEvent<H>,
)
    requires
        wait_step(state, event).1 matches WaitStep::Ready(Ok(_)),
    ensures
        wait_step(wait_step(state, event).0, later).1 == WaitStep::Ready(
            Err::<i32, IoError>(already_completed()),
        ),
{
}

/// A wait opens a descriptor of its own process, asks for the status before it waits,
/// and ends with the status or with the error of a step; a child that runs on is waited
/// for. Once it is over it gives no other result.
pub proof fn waits_end_with_the_status<H>(
    before: WaitPidOp<H>,
    after: WaitPidOp<H>,
    event: WaitEvent<H>,
    r: WaitStep,
    pid: i32,
    handle: H,
    status: i32,
    error: IoError,
)
    requires
        exists|op: &mut WaitPidOp<H>|
            *op == before && *final(op) == after && #[trigger] call_ensures(
                WaitPidOp::<H>::poll,
                (op, event),
                r,
            ),
    ensures
        before.state == (WaitPidState::<H>::Init { pid }) ==> match event {
            WaitEvent::Opened(Ok(own)) => r == (WaitStep::Reap { pid }) && after.state
                == (WaitPidState::Polling { pid, handle: own }),
            WaitEvent::Opened(Err(own)) => r == WaitStep::Ready(Err::<i32, IoError>(own))
                && after.state
                == before.state,
            _ => r == (WaitStep::Open { pid }) && after.state == before.state,
        },
        before.state == (WaitPidState::Polling { pid, handle }) && event == WaitEvent::<H>::Reaped(
            Ok(status),
        ) ==> r == WaitStep::Ready(Ok::<i32, IoError>(status)) && after.state is Done,
        before.state == (WaitPidState::Polling { pid, handle }) && event == WaitEvent::<H>::Reaped(
            Err(error),
        ) ==> if error.would_block() {
            r == WaitStep::AwaitReadiness(Interest::Readable) && after.state == before.state
        } else {
            r == WaitStep::Ready(Err::<i32, IoError>(error)) && after.state is Done
        },
        before.state == (WaitPidState::Polling { pid, handle }) && event == WaitEvent::<H>::Armed(
            Err(error),
        ) ==> r == WaitStep::Ready(Err::<i32, IoError>(error)) && after.state == before.state,
        before.state == (WaitPidState::Polling { pid, handle }) && event
            == WaitEvent::<H>::Armed(Ok(()))
            ==> r is Pending && after.state == before.state,
        before.state == (WaitPidState::Polling { pid, handle }) && (event is Polled
            || event is Opened)
            ==> r == (WaitStep::Reap { pid }) && after.state == before.state,
        before.state is Done ==> after.state is Done && (r matches WaitStep::Ready(Err(own)) && (own
            matches IoError::Message(kind, _) && kind is Other)),
        r matches WaitStep::Ready(Ok(own)) ==> event == WaitEvent::<H>::Reaped(Ok(own))
            && before.state
            is Polling,
{
}

/// A child that was reaped gives its status; one that runs on gives an error that
/// waits, and a failure comes out as it is.
pub proof fn reaping_gives_the_status(
    reaped: Result<i32, IoError>,
    status: i32,
    r: Result<i32, IoError>,
)
    requires
        call_ensures(reap_result, (reaped, status), r),
    ensures
        reaped matches Ok(process) ==> if process == 0 {
            r matches Err(error) && error.would_block() && !(error is Os)
        } else {
            r == Ok::<i32, IoError>(status)
        },
        reaped matches Err(error) ==> r == Err::<i32, IoError>(error),
{
}

/// A wait begins with the number of its process.
pub proof fn waits_are_for_their_process<H>(
    pid: u32,
    r: WaitPidOp<H>,
)
    requires
        call_ensures(WaitPidOp::<H>::new, (pid,), r),
    ensures
        r.state matches WaitPidState::Init { pid: own } && (pid < 0x8000_0000 ==> own == pid),
{
}

} // verus!
