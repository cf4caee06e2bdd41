# rsloop_vibeio

The state machines of an event loop, proved with Verus: timers, sleeps,
intervals and timeouts; I/O operations that run by completion or by polling;
signals; child processes and their reaping; the wake-ups of tasks; a service
that runs tasks on a thread of its own; and an adapter between streams that own
their buffers and streams that borrow them.

The library makes no system call, reads no clock and wakes nobody. It is told
what happened, and says what is to be done next. What it says is stated in the
contracts of its functions, and what follows of several of them in public proof
functions beside them.

## Layout

- `src/clock.rs`, `src/timer.rs`, `src/time/`: points and spans of time, the
  deadline heap, and what is built on it.
- `src/system.rs`: the numbers that operating systems differ in.
- `src/error.rs`, `src/handle.rs`, `src/poll.rs`, `src/io.rs`: errors, handles,
  readiness, and buffers.
- `src/op/`: one module for each operation. `src/op/mod.rs` holds what they have
  in common, `src/op/socket_addr.rs` the layout of socket addresses.
- `src/signal/`: listeners, and the registries of Unix and Windows.
- `src/process/`: children, their streams, and who reaps them.
- `src/task.rs`, `src/service.rs`, `src/util/`: wake-ups, the service, and the
  stream adapter.
- `src/watchdog.rs`: helpers that bound the time of a test.
- `src/outside.rs`: types and functions of other crates whose behaviour is taken
  as given. Those of a queue or a slab stand beside the code that uses them.
- `tests/`: the library on concrete values.
- `app/`: futures, system calls, threads and the rest of the world around the
  library.
