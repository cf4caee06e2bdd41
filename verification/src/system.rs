//! What operating systems differ in: the numbers of errors and signals, and the
//! families of socket addresses.

use vstd::prelude::*;

verus! {

/// An operating system.
#[derive(Debug, Clone, Copy, PartialEq, Eq, Structural)]
pub enum System {
    Linux,
    Macos,
    Windows,
}

/// A system whose files and sockets are descriptors.
#[derive(Debug, Clone, Copy, PartialEq, Eq, Structural)]
pub enum Unix {
    Linux,
    Macos,
}

impl Unix {
    #[verifier::allow_in_spec]
    pub fn system(self) -> System
        returns
            (match self {
                Unix::Linux => System::Linux,
                Unix::Macos => System::Macos,
            }),
    {
        match self {
            Unix::Linux => System::Linux,
            Unix::Macos => System::Macos,
        }
    }

    /// SIGUSR1.
    #[verifier::allow_in_spec]
    pub fn sigusr1(self) -> i32
        returns
            (match self {
                Unix::Linux => 10i32,
                Unix::Macos => 30i32,
            }),
    {
        match self {
            Unix::Linux => 10,
            Unix::Macos => 30,
        }
    }

    /// SIGUSR2.
    #[verifier::allow_in_spec]
    pub fn sigusr2(self) -> i32
        returns
            (match self {
                Unix::Linux => 12i32,
                Unix::Macos => 31i32,
            }),
    {
        match self {
            Unix::Linux => 12,
            Unix::Macos => 31,
        }
    }

    /// SIGCHLD.
    #[verifier::allow_in_spec]
    pub fn sigchld(self) -> i32
        returns
            (match self {
                Unix::Linux => 17i32,
                Unix::Macos => 20i32,
            }),
    {
        match self {
            Unix::Linux => 17,
            Unix::Macos => 20,
        }
    }
}

/// Whether a code of Windows says that a call took too long, or was given up.
#[verifier::allow_in_spec]
pub fn windows_timeout(code: i32) -> bool
    returns
        (code == 121 || code == 258 || code == 594 || code == 995 || code == 1053 || code == 1121
            || code == 1460 || code == 5910 || code == 7012 || code == 7040 || code == 8014
            || code == 8226 || code == 9705 || code == 10060 || code == 13805 || code == 15402
            || code == 15403),
{
    code == 121 || code == 258 || code == 594 || code == 995 || code == 1053 || code == 1121
        || code == 1460 || code == 5910 || code == 7012 || code == 7040 || code == 8014
        || code == 8226 || code == 9705 || code == 10060 || code == 13805 || code == 15402
        || code == 15403
}

impl System {
    /// EINTR: a signal cut the call short. No code of Windows says so.
    #[verifier::allow_in_spec]
    pub fn interrupted(self) -> Option<i32>
        returns
            (match self {
                System::Linux => Some(4i32),
                System::Macos => Some(4i32),
                System::Windows => None,
            }),
    {
        match self {
            System::Linux => Some(4),
            System::Macos => Some(4),
            System::Windows => None,
        }
    }

    /// EAGAIN: the call would have to wait.
    #[verifier::allow_in_spec]
    pub fn would_block(self) -> i32
        returns
            (match self {
                System::Linux => 11i32,
                System::Macos => 35i32,
                System::Windows => 10035i32,
            }),
    {
        match self {
            System::Linux => 11,
            System::Macos => 35,
            System::Windows => 10035,
        }
    }

    /// EINPROGRESS: the connect goes on.
    #[verifier::allow_in_spec]
    pub fn in_progress(self) -> i32
        returns
            (match self {
                System::Linux => 115i32,
                System::Macos => 36i32,
                System::Windows => 10036i32,
            }),
    {
        match self {
            System::Linux => 115,
            System::Macos => 36,
            System::Windows => 10036,
        }
    }

    /// EALREADY: a connect is under way already.
    #[verifier::allow_in_spec]
    pub fn already(self) -> i32
        returns
            (match self {
                System::Linux => 114i32,
                System::Macos => 37i32,
                System::Windows => 10037i32,
            }),
    {
        match self {
            System::Linux => 114,
            System::Macos => 37,
            System::Windows => 10037,
        }
    }

    /// ENOTCONN: the socket has no peer.
    #[verifier::allow_in_spec]
    pub fn not_connected(self) -> i32
        returns
            (match self {
                System::Linux => 107i32,
                System::Macos => 57i32,
                System::Windows => 10057i32,
            }),
    {
        match self {
            System::Linux => 107,
            System::Macos => 57,
            System::Windows => 10057,
        }
    }

    /// Whether a code says that a call took too long: ETIMEDOUT, or one of those
    /// of Windows.
    #[verifier::allow_in_spec]
    pub fn timed_out(self, code: i32) -> bool
        returns
            (match self {
                System::Linux => code == 110,
                System::Macos => code == 60,
                System::Windows => windows_timeout(code),
            }),
    {
        match self {
            System::Linux => code == 110,
            System::Macos => code == 60,
            System::Windows => windows_timeout(code),
        }
    }

    /// AF_INET6: the address family of IPv6.
    #[verifier::allow_in_spec]
    pub fn inet6(self) -> u16
        returns
            (match self {
                System::Linux => 10u16,
                System::Macos => 30u16,
                System::Windows => 23u16,
            }),
    {
        match self {
            System::Linux => 10,
            System::Macos => 30,
            System::Windows => 23,
        }
    }

    /// Whether an address starts with a byte that holds its length, and has a
    /// family of one byte behind it.
    #[verifier::allow_in_spec]
    pub fn length_byte(self) -> bool
        returns
            self == System::Macos,
    {
        match self {
            System::Macos => true,
            _ => false,
        }
    }

    /// Size of the address of a Unix domain socket.
    #[verifier::allow_in_spec]
    pub fn unix_len(self) -> usize
        returns
            (match self {
                System::Macos => 106usize,
                _ => 110usize,
            }),
    {
        match self {
            System::Macos => 106,
            _ => 110,
        }
    }
}

/// Each system numbers its errors, address families and signals in its own way.
pub proof fn numbers_are_those_of_the_system(
    system: System,
    code: i32,
    interrupted: Option<i32>,
    would_block: i32,
    in_progress: i32,
    already: i32,
    not_connected: i32,
    timed_out: bool,
    inet6: u16,
    length_byte: bool,
    unix_len: usize,
)
    requires
        call_ensures(System::interrupted, (system,), interrupted),
        call_ensures(System::would_block, (system,), would_block),
        call_ensures(System::in_progress, (system,), in_progress),
        call_ensures(System::already, (system,), already),
        call_ensures(System::not_connected, (system,), not_connected),
        call_ensures(System::timed_out, (system, code), timed_out),
        call_ensures(System::inet6, (system,), inet6),
        call_ensures(System::length_byte, (system,), length_byte),
        call_ensures(System::unix_len, (system,), unix_len),
    ensures
        system is Linux ==> interrupted == Some(4i32) && would_block == 11 && in_progress == 115
            && already == 114 && not_connected == 107 && timed_out == (code == 110) && inet6 == 10
            && !length_byte && unix_len == 110,
        system is Macos ==> interrupted == Some(4i32) && would_block == 35 && in_progress == 36
            && already == 37 && not_connected == 57 && timed_out == (code == 60) && inet6 == 30
            && length_byte && unix_len == 106,
        system is Windows ==> interrupted is None && would_block == 10035 && in_progress == 10036
            && already == 10037 && not_connected == 10057 && inet6 == 23 && !length_byte
            && unix_len == 110,
        system is Windows ==> timed_out == seq![
            121i32,
            258,
            594,
            995,
            1053,
            1121,
            1460,
            5910,
            7012,
            7040,
            8014,
            8226,
            9705,
            10060,
            13805,
            15402,
            15403,
        ].contains(code),
{
    if system is Windows {
        let codes = seq![
            121i32,
            258,
            594,
            995,
            1053,
            1121,
            1460,
            5910,
            7012,
            7040,
            8014,
            8226,
            9705,
            10060,
            13805,
            15402,
            15403,
        ];
        assert(codes[0] == 121 && codes[1] == 258 && codes[2] == 594 && codes[3] == 995 && codes[4]
            == 1053 && codes[5] == 1121 && codes[6] == 1460 && codes[7] == 5910 && codes[8] == 7012
            && codes[9] == 7040 && codes[10] == 8014 && codes[11] == 8226 && codes[12] == 9705
            && codes[13] == 10060 && codes[14] == 13805 && codes[15] == 15402 && codes[16]
            == 15403);
    }
}

/// Signals that Unix systems number differently.
pub proof fn signals_are_those_of_the_system(unix: Unix, system: System, usr1: i32, usr2: i32, chld: i32)
    requires
        call_ensures(Unix::system, (unix,), system),
        call_ensures(Unix::sigusr1, (unix,), usr1),
        call_ensures(Unix::sigusr2, (unix,), usr2),
        call_ensures(Unix::sigchld, (unix,), chld),
    ensures
        unix is Linux ==> system is Linux && usr1 == 10 && usr2 == 12 && chld == 17,
        unix is Macos ==> system is Macos && usr1 == 30 && usr2 == 31 && chld == 20,
{
}

} // verus!
