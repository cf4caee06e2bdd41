//! Child processes, their streams, and who reaps them.

use std::sync::Arc;

use rsloop_vibeio::error::{ErrorKind, IoError};
use rsloop_vibeio::io::{ByteBuf, IoBuf, IoBufMut};
use rsloop_vibeio::process::reaper::{
    dropped, pidfd_available, pidfd_finished, route_wait, triage, wait_result, DropStep,
    PendingChild, PidfdOutcome, ReapChild, ReaperStep, Triage, UnixReaper, WaitContext, WaitRoute,
    ENOSYS,
};
use rsloop_vibeio::process::{
    blocking_pool_io_error, child_consumed_error, child_io_configured, command_consumed_error,
    make_child_io, offload_result, stdio_closed_error, Child, ChildIo, ChildIoStep, ChildStdin,
    ChildStdout, ChildStream, Command, RunStep, StreamStep,
};
use rsloop_vibeio::system::System;

#[test]
fn errors_say_what_was_given_away() {
    for (error, kind, text) in [
        (
            stdio_closed_error(),
            ErrorKind::BrokenPipe,
            "child stdio is closed",
        ),
        (
            command_consumed_error(),
            ErrorKind::InvalidInput,
            "command has been consumed",
        ),
        (
            child_consumed_error(),
            ErrorKind::InvalidInput,
            "child process has been consumed",
        ),
        (
            blocking_pool_io_error(),
            ErrorKind::Other,
            "can't spawn blocking task for process I/O",
        ),
    ] {
        assert_eq!(error, IoError::Message(kind, text));
    }
}

/// A registration that ends when it is dropped.
type Registration = Arc<()>;

#[test]
fn child_stream_conversion_deregisters_once_and_preserves_descriptors() {
    let registration: Registration = Arc::new(());
    let weak = Arc::downgrade(&registration);
    let mut stream = ChildStdout::from_std("descriptor", ChildIo::Async(registration));
    assert!(matches!(stream.drop_handle(), ChildIo::Async(_)));
    assert!(weak.upgrade().is_none());
    assert!(matches!(stream.drop_handle(), ChildIo::Blocking));
    assert_eq!(stream.into_std(), "descriptor");
}

#[test]
fn failed_child_io_configuration_releases_registration() {
    let registration: Registration = Arc::new(());
    let weak = Arc::downgrade(&registration);
    let ChildIoStep::SetNonblocking {
        handle,
        nonblocking,
    } = make_child_io(Some(Ok((registration, false))))
    else {
        panic!("a registered stream is configured")
    };
    assert!(nonblocking);
    let result = child_io_configured(handle, Err(IoError::Os(System::Linux, libc::EBADF)));
    assert!(matches!(result, Err(ref error) if error.raw_os_error() == Some(libc::EBADF)));
    assert!(weak.upgrade().is_none());
}

#[test]
fn streams_that_cannot_be_registered_block() {
    for registered in [None, Some(Err(IoError::Os(System::Linux, libc::EPERM)))] {
        assert!(matches!(
            make_child_io::<()>(registered),
            ChildIoStep::Ready(ChildIo::Blocking)
        ));
    }
    assert!(matches!(
        make_child_io(Some(Ok((5, true)))),
        ChildIoStep::SetNonblocking {
            handle: 5,
            nonblocking: false
        }
    ));
    assert!(matches!(
        child_io_configured(5, Ok(())),
        Ok(ChildIo::Async(5))
    ));
}

#[test]
fn command_offloads_restore_configuration_on_success_and_pool_rejection() {
    for run in [false, true] {
        let mut command = Command::new(vec!["program"]);
        command.as_std().push("--list");
        let RunStep::Offload(configuration) = command.begin_run(true) else {
            panic!("a worker runs the command")
        };
        // The command stays consumed while the worker has its configuration.
        assert!(matches!(
            command.spawn(),
            Err(error) if error == command_consumed_error()
        ));
        for driver in [false, true] {
            assert!(matches!(
                command.begin_run(driver),
                RunStep::Refused(error) if error == command_consumed_error()
            ));
        }
        let status = command.offloaded(configuration, if run { Some(Ok(0)) } else { None });
        if run {
            assert_eq!(status, Ok(0));
        } else {
            assert_eq!(status.unwrap_err().kind(), Some(ErrorKind::Other));
        }
        assert_eq!(*command.as_std(), ["program", "--list"]);
        assert!(matches!(command.begin_run(false), RunStep::Call));
        assert_eq!(command.spawn().unwrap().len(), 2);
        assert_eq!(command.into_std(), ["program", "--list"]);
    }
}

#[test]
fn blocking_pipe_worker_panics_preserve_stream_and_buffer() {
    let mut stream: ChildStdin<&str, ()> = ChildStream::from_std("pipe", ChildIo::Blocking);
    let StreamStep::Offload(inner) = stream.begin(9, true) else {
        panic!("a worker makes the call")
    };
    // A second call in between finds the stream gone.
    assert!(matches!(
        stream.begin(9, true),
        StreamStep::Done(Err(error)) if error == stdio_closed_error()
    ));
    assert_eq!(
        stream.offloaded(inner, None).unwrap_err().kind(),
        Some(ErrorKind::Other)
    );
    assert!(matches!(stream.begin(9, true), StreamStep::Offload("pipe")));
    assert_eq!(offload_result(Some(Ok(3))), Ok(3));
    assert_eq!(
        offload_result::<u8>(Some(Err(IoError::Os(System::Linux, 32)))),
        Err(IoError::Os(System::Linux, 32))
    );
}

#[test]
fn blocking_child_reader_fills_empty_vector_and_clears_it_at_eof() {
    let source = b"hello".to_vec();
    let mut stream: ChildStdout<Vec<u8>, ()> = ChildStream::from_std(source, ChildIo::Blocking);
    let mut buf = ByteBuf::with_capacity(8);
    for expected in [b"hello".as_slice(), b""] {
        let StreamStep::Offload(mut reader) = stream.begin(buf.buf_capacity(), true) else {
            panic!("a worker makes the call")
        };
        let count = reader.len();
        buf.storage[..count].copy_from_slice(&reader);
        buf.set_buf_init(count);
        reader.clear();
        assert_eq!(stream.offloaded(reader, Some(Ok(count))), Ok(expected.len()));
        assert_eq!(&buf.storage[..buf.buf_len()], expected);
    }
}

#[test]
fn streams_are_used_where_they_are() {
    let mut stream: ChildStream<&str, ()> = ChildStream::from_std("pipe", ChildIo::Async(()));
    assert!(matches!(stream.begin(0, true), StreamStep::Done(Ok(0))));
    assert!(matches!(stream.begin(4, true), StreamStep::Submit));
    assert!(matches!(stream.begin_flush(true), StreamStep::Done(Ok(0))));
    let mut stream: ChildStream<&str, ()> = ChildStream::from_std("pipe", ChildIo::Blocking);
    assert!(matches!(stream.begin(4, false), StreamStep::Call));
    assert!(matches!(stream.begin_flush(false), StreamStep::Call));
    assert!(matches!(
        stream.begin_flush(true),
        StreamStep::Offload("pipe")
    ));
    assert!(matches!(
        stream.begin_flush(false),
        StreamStep::Done(Err(error)) if error == stdio_closed_error()
    ));
}

#[test]
fn children_are_held_until_they_are_waited_for() {
    let mut child: Child<&str, &str, &str> = Child::from_std("process", 42);
    assert_eq!(child.attach_stdin(Some(Ok("in"))), Ok(()));
    assert_eq!(
        child.attach_stdout(Some(Err(IoError::Os(System::Linux, 9)))),
        Err(IoError::Os(System::Linux, 9))
    );
    assert_eq!(child.attach_stderr(None), Ok(()));
    assert_eq!(child.id(), 42);
    assert_eq!(child.stdin, Some("in"));
    assert_eq!(child.stdout, None);
    assert_eq!(**child.inner_mut().unwrap(), *"process");
    assert_eq!(child.begin_wait(), Ok("process"));
    assert_eq!(child.stdin, None);
    assert_eq!(child.begin_wait(), Err(child_consumed_error()));
    assert_eq!(child.inner_mut(), Err(child_consumed_error()));
    assert_eq!(child.release(), None);
    let mut failed: Child<&str, &str, &str> = Child::from_std("process", 42);
    assert!(failed.attach_stdin(Some(Err(IoError::Os(System::Linux, 9)))).is_err());
    assert_eq!(failed.release(), Some("process"));
}

#[test]
fn thread_reaper_delivers_status_without_runtime_pool() {
    // Without the signal every child goes to a thread of its own.
    let mut reaper = UnixReaper::new(Err(IoError::Os(System::Linux, libc::EINVAL)));
    match reaper.received(Some("child")) {
        ReaperStep::Background(batch) => assert_eq!(batch, ["child"]),
        _ => panic!("a thread waits for the child"),
    }
    match reaper.received(None) {
        ReaperStep::Stop(batch) => assert!(batch.is_empty()),
        _ => panic!("no more children come"),
    }
    assert_eq!(wait_result(Some(Ok(9))), Ok(9));
    assert_eq!(
        wait_result::<i32>(None),
        Err(IoError::Message(ErrorKind::Other, "zombie reaper error"))
    );
}

#[test]
fn failed_worker_start_preserves_child_for_synchronous_reaping() {
    let mut pending = PendingChild::new("child");
    assert_eq!(
        pending.reap_with_worker(Err(IoError::Simple(ErrorKind::WouldBlock))),
        Some("child")
    );
    assert_eq!(pending.take(), None);
    let mut pending = PendingChild::new("child");
    assert_eq!(pending.reap_with_worker(Ok(())), None);
    assert_eq!(pending.take(), Some("child"));
    assert_eq!(pending.take(), None);
}

#[test]
fn queued_and_rejected_messages_reap_on_drop() {
    for tried in [Ok(None), Err(IoError::Os(System::Linux, libc::EINVAL))] {
        let mut guard = ReapChild::new("child");
        assert_eq!(guard.child_mut(), Some(&mut "child"));
        let child = guard.take().unwrap();
        assert!(matches!(
            dropped::<_, i32>(child, tried),
            DropStep::StartWorker("child")
        ));
        assert_eq!(guard.take(), None);
    }
    assert!(matches!(dropped("child", Ok(Some(0))), DropStep::Done));
}

#[test]
fn rejected_waits_go_to_the_background() {
    assert!(matches!(route_wait::<&str>(Ok(())), WaitRoute::Reaper));
    assert!(matches!(
        route_wait(Err("message")),
        WaitRoute::Background("message")
    ));
}

#[test]
fn runtime_shutdown_reaps_child_in_pidfd_task() {
    assert!(matches!(triage::<i32>(Ok(None)), Triage::Watch));
    // A wait that is over has reaped the child, which is not waited for again.
    assert!(matches!(
        pidfd_finished(ReapChild::new("child"), Ok(9 << 8)),
        PidfdOutcome::Deliver(status) if status == 9 << 8
    ));
    match pidfd_finished(ReapChild::new("child"), Err(IoError::Os(System::Linux, libc::ECHILD))) {
        PidfdOutcome::Background(mut guard) => assert_eq!(guard.take(), Some("child")),
        PidfdOutcome::Deliver(_) => panic!("the wait failed"),
    }
}

#[test]
fn descriptors_of_processes_are_there_unless_the_call_is_missing() {
    assert_eq!(ENOSYS, libc::ENOSYS);
    assert!(pidfd_available(Ok(())));
    assert!(pidfd_available(Err(IoError::Os(System::Linux, libc::EPERM))));
    assert!(pidfd_available(Err(IoError::Simple(ErrorKind::Other))));
    assert!(!pidfd_available(Err(IoError::Os(System::Linux, libc::ENOSYS))));
}

#[test]
fn signalled_reaper_asks_again_and_keeps_the_order() {
    let mut reaper = UnixReaper::new(Ok(()));
    for child in ["a", "b", "c", "d"] {
        let ReaperStep::TryWait(batch) = reaper.received(Some(child)) else {
            panic!("the child is asked first")
        };
        assert_eq!(batch, [child]);
        assert!(reaper.tried::<i32>(child, Ok(None)).is_none());
    }
    assert_eq!(reaper.tried("e", Ok(Some(3))), Some(("e", Ok(3))));
    let ReaperStep::TryWait(batch) = reaper.signalled(Ok(())) else {
        panic!("all children are asked")
    };
    assert_eq!(batch, ["a", "b", "c", "d"]);
    let answers = [
        Ok(None),
        Ok(Some(7)),
        Err(IoError::Os(System::Linux, libc::ECHILD)),
        Ok(None),
    ];
    let told: Vec<_> = batch
        .into_iter()
        .zip(answers)
        .filter_map(|(child, answer)| reaper.tried(child, answer))
        .collect();
    assert_eq!(
        told,
        [("b", Ok(7)), ("c", Err(IoError::Os(System::Linux, libc::ECHILD)))]
    );
    // The signal is lost: the rest goes to threads, and so does all to come.
    let ReaperStep::Background(batch) = reaper.signalled(Err(IoError::Os(System::Linux, libc::EBADF))) else {
        panic!("threads take over")
    };
    assert_eq!(batch, ["a", "d"]);
    assert!(matches!(
        reaper.received(Some("f")),
        ReaperStep::Background(_)
    ));
}

#[test]
fn closed_reaper_hands_its_children_on() {
    let mut reaper = UnixReaper::new(Ok(()));
    assert!(reaper.tried::<i32>("a", Ok(None)).is_none());
    let ReaperStep::Stop(batch) = reaper.received(None) else {
        panic!("no more children come")
    };
    assert_eq!(batch, ["a"]);
}

#[test]
fn system_waits_keep_or_give_back_the_child() {
    let mut context: WaitContext<&str, u64> = WaitContext::new("child");
    assert_eq!(context.registered(Ok(5)), None);
    assert_eq!(context.message_mut(), Some(&mut "child"));
    assert_eq!(context.release(), Some(5));
    assert_eq!(context.release(), None);
    let mut context: WaitContext<&str, u64> = WaitContext::new("child");
    assert_eq!(
        context.registered(Err(IoError::Os(System::Windows, 6))),
        Some("child")
    );
    assert_eq!(context.message_mut(), None);
    assert_eq!(context.release(), None);
}
