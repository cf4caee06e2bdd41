[package]
name = "rsloop_vibeio"
version = "0.1.0"
edition = "2021"
publish = false

[dependencies]
async-channel = "=2.5.0"
crossbeam-queue = "=0.3.14"
errno = "=0.3.14"
futures-util = "=0.3.34"
io-uring = "=0.7.15"
libc = "=0.2.191"
mio = { version = "=1.2.4", features = ["os-poll", "os-ext"] }
once_cell = "=1.21.4"
oneshot = { version = "=0.2.1", features = ["async", "std"] }
pin-project-lite = "=0.2.17"
slab = "=0.4.12"
socket2 = { version = "=0.6.5", features = ["all"] }
tokio = { version = "=1.54.1", features = ["io-util"] }
windows-sys = { version = "=0.61.2", features = ["Win32_Foundation", "Win32_Networking_WinSock", "Win32_Storage_FileSystem", "Win32_System_Console", "Win32_System_IO", "Win32_System_Threading"] }
