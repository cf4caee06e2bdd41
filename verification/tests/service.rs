//! The service that runs tasks on a thread of its own.

use rsloop_vibeio::error::{ErrorKind, IoError};
use rsloop_vibeio::service::{
    cancel, spawned, wait_for_service_ready, Command, CommandStep, Tasks,
};

#[test]
fn services_start_or_say_why_not() {
    assert!(wait_for_service_ready(Some(Ok(()))).is_ok());
    assert_eq!(
        wait_for_service_ready(Some(Err("no driver".to_string()))).unwrap_err(),
        "no driver"
    );
    assert_eq!(
        wait_for_service_ready(None).unwrap_err(),
        "vibeio service failed to start"
    );
}

#[test]
fn tasks_are_numbered_from_one() {
    let mut service = wait_for_service_ready(Some(Ok(()))).unwrap();
    for expected in 1..4 {
        let (task, command) = service.spawn("factory");
        assert_eq!(task.id(), expected);
        assert!(matches!(
            command,
            Command::Spawn { id, factory: "factory" } if id == expected
        ));
        assert!(matches!(
            cancel::<()>(task),
            Command::Cancel { id } if id == expected
        ));
        assert_eq!(spawned(task, Ok(())), Ok(task));
        assert_eq!(
            spawned(task, Err(IoError::Simple(ErrorKind::BrokenPipe))),
            Err(IoError::Message(
                ErrorKind::BrokenPipe,
                "vibeio service stopped"
            ))
        );
    }
}

#[test]
fn tasks_are_cancelled_at_most_once() {
    let mut tasks: Tasks<&str> = Tasks::new();
    let CommandStep::Start { id, factory } =
        tasks.handle_service_command(Command::Spawn { id: 7, factory: 3 })
    else {
        panic!("the task is started")
    };
    assert_eq!((id, factory), (7, 3));
    assert_eq!(tasks.started(7, "running"), None);
    assert_eq!(tasks.started(8, "other"), None);
    assert!(matches!(
        tasks.handle_service_command(Command::<()>::Cancel { id: 7 }),
        CommandStep::Cancel("running")
    ));
    assert!(matches!(
        tasks.handle_service_command(Command::<()>::Cancel { id: 7 }),
        CommandStep::Done
    ));
    assert!(matches!(
        tasks.handle_service_command(Command::<()>::Finished { id: 8 }),
        CommandStep::Done
    ));
    assert!(matches!(
        tasks.handle_service_command(Command::<()>::Cancel { id: 8 }),
        CommandStep::Done
    ));
    assert_eq!(tasks.started(9, "left"), None);
    assert_eq!(tasks.started(9, "newer"), Some("left"));
    let left = tasks.into_tasks();
    assert_eq!(left.len(), 1);
    assert_eq!(left[&9], "newer");
}
