//! Handles of the operating system, as operations see them.

use vstd::prelude::*;

use crate::op::socket_addr::AddressFormat;
use crate::system::{System, Unix};

verus! {

/// A native handle: a descriptor of a Unix system, or one of the two sorts that
/// Windows tells apart.
#[derive(Debug, Clone, Copy, PartialEq, Eq, Structural)]
pub enum RawOsHandle {
    Fd(i32),
    Socket(u64),
    Handle(u64),
}

/// Identifies a driver: the part of an event loop that talks to the kernel.
#[derive(Debug, Clone, Copy, PartialEq, Eq, Structural)]
pub struct DriverId(pub u64);

/// A handle that is registered with a driver.
#[derive(Debug, Clone, Copy, PartialEq, Eq, Structural)]
pub struct InnerRawHandle {
    pub handle: RawOsHandle,
    /// The driver that the handle is registered with, whichever is entered now.
    pub driver: DriverId,
    /// Whether operations are submitted as completions.
    pub completion: bool,
    /// The system that descriptors are of. Other handles are those of Windows.
    pub unix: Unix,
    /// Whether the high byte of a number comes first in memory.
    pub big_endian: bool,
}

impl InnerRawHandle {
    /// The system that the handle is of.
    #[verifier::allow_in_spec]
    pub fn system(&self) -> System
        returns
            (match self.handle {
                RawOsHandle::Fd(_) => self.unix.system(),
                _ => System::Windows,
            }),
    {
        match self.handle {
            RawOsHandle::Fd(_) => self.unix.system(),
            _ => System::Windows,
        }
    }

    /// How the system of the handle lays out socket addresses.
    #[verifier::allow_in_spec]
    pub fn addresses(&self) -> AddressFormat
        returns
            (AddressFormat { system: self.system(), big_endian: self.big_endian }),
    {
        AddressFormat { system: self.system(), big_endian: self.big_endian }
    }

    /// A handle in completion mode that stands for no open file, on a Linux
    /// system of low byte order.
    pub fn for_mock_completion(driver: DriverId) -> (r: Self)
        ensures
            r == (InnerRawHandle {
                handle: RawOsHandle::Fd(-1i32),
                driver,
                completion: true,
                unix: Unix::Linux,
                big_endian: false,
            }),
    {
        InnerRawHandle {
            handle: RawOsHandle::Fd(-1),
            driver,
            completion: true,
            unix: Unix::Linux,
            big_endian: false,
        }
    }

    pub fn uses_completion(&self) -> (r: bool)
        ensures
            r == self.completion,
    {
        self.completion
    }
}

/// A descriptor is of the Unix system at hand, every other handle of Windows; its
/// addresses are laid out as that system does.
pub proof fn handles_are_of_their_system(
    handle: InnerRawHandle,
    system: System,
    addresses: AddressFormat,
    completion: bool,
)
    requires
        call_ensures(InnerRawHandle::system, (&handle,), system),
        call_ensures(InnerRawHandle::addresses, (&handle,), addresses),
        call_ensures(InnerRawHandle::uses_completion, (&handle,), completion),
    ensures
        handle.handle is Fd ==> (system is Linux <==> handle.unix is Linux) && (system is Macos
            <==> handle.unix is Macos) && !(system is Windows),
        !(handle.handle is Fd) ==> system is Windows,
        addresses.system == system && addresses.big_endian == handle.big_endian,
        completion == handle.completion,
{
}

/// A handle for a mock stands for no open file, uses completions and is of its driver.
pub proof fn mock_handles_are_of_their_driver(
    driver: DriverId,
    r: InnerRawHandle,
)
    requires
        call_ensures(InnerRawHandle::for_mock_completion, (driver,), r),
    ensures
        r.driver == driver && r.completion && r.handle == RawOsHandle::Fd(-1i32),
        r.unix is Linux && !r.big_endian,
{
}

} // verus!
