//! Socket addresses, as bytes and as values.

use rsloop_vibeio::error::{ErrorKind, IoError};
use rsloop_vibeio::handle::{DriverId, InnerRawHandle};
use rsloop_vibeio::op::connect::{AddressStorage, ConnectOp, AF_UNIX};
use rsloop_vibeio::op::socket_addr::{
    sockaddr_storage_to_socketaddr, socket_addr_to_raw, socketaddr_from_buffer,
    validate_address_length, AddressFormat, SocketAddr, AF_INET, INET6_LEN, INET_LEN, STORAGE_LEN,
};
use rsloop_vibeio::system::{System, Unix};

/// The layout of Linux on this machine.
fn native() -> AddressFormat {
    AddressFormat {
        system: System::Linux,
        big_endian: high_byte_first(),
    }
}

fn high_byte_first() -> bool {
    1u16.to_be_bytes() == 1u16.to_ne_bytes()
}

fn formats() -> [AddressFormat; 6] {
    let format = |system, big_endian| AddressFormat { system, big_endian };
    [
        native(),
        format(System::Linux, true),
        format(System::Macos, false),
        format(System::Macos, true),
        format(System::Windows, false),
        format(System::Windows, true),
    ]
}

/// The first two bytes of an address.
fn head(format: AddressFormat, family: u16, length: usize) -> [u8; 2] {
    if format.system == System::Macos {
        [length as u8, family as u8]
    } else if format.big_endian {
        family.to_be_bytes()
    } else {
        family.to_le_bytes()
    }
}

fn v4(ip: [u8; 4], port: u16) -> SocketAddr {
    SocketAddr::V4 { ip, port }
}

fn v6(first: u16, last: u16, port: u16, flowinfo: u32, scope_id: u32) -> SocketAddr {
    let mut ip = [0u8; 16];
    ip[..2].copy_from_slice(&first.to_be_bytes());
    ip[14..].copy_from_slice(&last.to_be_bytes());
    SocketAddr::V6 {
        ip,
        port,
        flowinfo,
        scope_id,
    }
}

fn port(address: &SocketAddr) -> u16 {
    match address {
        SocketAddr::V4 { port, .. } => *port,
        SocketAddr::V6 { port, .. } => *port,
    }
}

#[test]
fn outbound_addresses_round_trip_with_exact_native_lengths() {
    let addresses = [
        v4([0, 0, 0, 0], 0),
        v4([192, 0, 2, 123], 4321),
        v4([255, 255, 255, 255], 65535),
        v6(0, 0, 0, 0, 0),
        v6(0x2001, 0x1234, 65535, 0, 0),
        v6(0xfe80, 0xabcd, 4321, 0x12345, 7),
    ];
    let lengths = [
        std::mem::size_of::<libc::sockaddr_in>(),
        std::mem::size_of::<libc::sockaddr_in6>(),
    ];
    for format in formats() {
        for address in addresses {
            let (storage, length) = socket_addr_to_raw(format, address);
            let ipv6 = matches!(address, SocketAddr::V6 { .. });
            assert_eq!(length, lengths[usize::from(ipv6)]);
            assert_eq!(
                sockaddr_storage_to_socketaddr(format, &storage, length).unwrap(),
                address
            );
            if format.system == System::Macos {
                assert_eq!(storage[0] as usize, length);
            }
        }
    }
    assert_eq!(System::Linux.inet6(), libc::AF_INET6 as u16);
    assert_eq!(
        System::Windows.inet6(),
        windows_sys::Win32::Networking::WinSock::AF_INET6
    );
    assert_eq!(INET_LEN, lengths[0]);
    assert_eq!(INET6_LEN, lengths[1]);
    assert_eq!(STORAGE_LEN, std::mem::size_of::<libc::sockaddr_storage>());
    assert_eq!(AF_INET, libc::AF_INET as u16);
}

#[test]
fn bytes_of_an_address_are_those_of_the_platform() {
    let format = AddressFormat {
        system: System::Linux,
        big_endian: false,
    };
    let (storage, length) = socket_addr_to_raw(format, v4([192, 0, 2, 1], 0x1234));
    assert_eq!(
        storage[..length],
        [2, 0, 0x12, 0x34, 192, 0, 2, 1, 0, 0, 0, 0, 0, 0, 0, 0]
    );
    let (storage, length) = socket_addr_to_raw(format, v6(0xfe80, 1, 0x1234, 0x0102_0304, 7));
    assert_eq!(length, 28);
    assert_eq!(storage[..8], [10, 0, 0x12, 0x34, 4, 3, 2, 1]);
    assert_eq!(storage[8..10], [0xfe, 0x80]);
    assert_eq!(storage[23..28], [1, 7, 0, 0, 0]);
    assert!(storage[length..].iter().all(|byte| *byte == 0));
    let format = AddressFormat {
        system: System::Macos,
        ..format
    };
    let (storage, length) = socket_addr_to_raw(format, v6(0xfe80, 1, 0x1234, 0x0102_0304, 7));
    assert_eq!(length, 28);
    assert_eq!(storage[..8], [28, 30, 0x12, 0x34, 4, 3, 2, 1]);
}

#[test]
fn ipv6_address_fields_survive_unaligned_buffer_decoding() {
    for format in formats() {
        let mut buffer = vec![0u8; INET6_LEN + 1];
        let mut set = |offset: usize, bytes: &[u8]| {
            buffer[1 + offset..1 + offset + bytes.len()].copy_from_slice(bytes);
        };
        let family = head(format, format.system.inet6(), INET6_LEN);
        let (flow, scope) = if format.big_endian {
            (
                0x12345u32.to_be_bytes(),
                7u32.to_be_bytes(),
            )
        } else {
            (
                0x12345u32.to_le_bytes(),
                7u32.to_le_bytes(),
            )
        };
        set(0, &family);
        set(2, &4321u16.to_be_bytes());
        set(4, &flow);
        set(8, &0xfe80u16.to_be_bytes());
        set(22, &0x1234u16.to_be_bytes());
        set(24, &scope);
        let start = 0x7000;
        let address =
            socketaddr_from_buffer(format, &buffer, start, start + 1, INET6_LEN as i32).unwrap();
        assert_eq!(address, v6(0xfe80, 0x1234, 4321, 0x12345, 7));
    }
}

#[test]
fn address_buffer_bounds_and_unaligned_input() {
    let format = native();
    let length = INET_LEN;
    let mut buffer = vec![0u8; length + 1];
    buffer[1..3].copy_from_slice(&AF_INET.to_ne_bytes());
    buffer[3..5].copy_from_slice(&4321u16.to_be_bytes());
    let start = 0x7000usize;
    let address =
        socketaddr_from_buffer(format, &buffer, start, start + 1, length as i32).unwrap();
    assert_eq!(address, v4([0, 0, 0, 0], 4321));
    for (pointer, size) in [
        (0, length as i32),
        (start - 1, length as i32),
        (start + buffer.len(), length as i32),
        (usize::MAX, length as i32),
        (start + 1, -1),
        (start + 1, 0),
        (start + 1, length as i32 - 1),
        (start + 1, length as i32 + 1),
        (start + 1, i32::MAX),
    ] {
        assert_eq!(
            socketaddr_from_buffer(format, &buffer, start, pointer, size)
                .unwrap_err()
                .kind(),
            Some(ErrorKind::InvalidData)
        );
    }
}

#[test]
fn source_address_length_is_checked_before_decoding() {
    for format in formats() {
        let families = [(AF_INET, INET_LEN), (format.system.inet6(), INET6_LEN)];
        for (index, (family, required)) in families.into_iter().enumerate() {
            let mut storage = [0u8; 128];
            storage[..2].copy_from_slice(&head(format, family, required));
            let capacity = STORAGE_LEN;
            for length in (0..required).chain([capacity + 1, usize::MAX]) {
                assert_eq!(
                    sockaddr_storage_to_socketaddr(format, &storage, length)
                        .unwrap_err()
                        .kind(),
                    Some(ErrorKind::InvalidData)
                );
            }
            let address = sockaddr_storage_to_socketaddr(format, &storage, required).unwrap();
            assert_eq!(matches!(address, SocketAddr::V4 { .. }), index == 0);
            match address {
                SocketAddr::V4 { ip, .. } => assert_eq!(ip, [0; 4]),
                SocketAddr::V6 { ip, .. } => assert_eq!(ip, [0; 16]),
            }
            assert_eq!(port(&address), 0);
            for length in required..=capacity {
                assert_eq!(
                    sockaddr_storage_to_socketaddr(format, &storage, length).unwrap(),
                    address
                );
            }
            storage[0] = 0;
            storage[1] = 0;
            assert_eq!(
                sockaddr_storage_to_socketaddr(format, &storage, capacity)
                    .unwrap_err()
                    .kind(),
                Some(ErrorKind::InvalidData)
            );
        }
    }
}

#[test]
fn lengths_lie_between_what_is_needed_and_what_is_there() {
    assert!(validate_address_length(16, 16, 128).is_ok());
    assert!(validate_address_length(128, 16, 128).is_ok());
    assert!(validate_address_length(15, 16, 128).is_err());
    assert!(validate_address_length(129, 16, 128).is_err());
}

fn mock() -> InnerRawHandle {
    InnerRawHandle::for_mock_completion(DriverId(1))
}

fn inet_address() -> [u8; 128] {
    socket_addr_to_raw(mock().addresses(), v4([127, 0, 0, 1], 0)).0
}

#[test]
fn address_survives_moves_and_cancellation_on_original_driver() {
    let owner = DriverId(7);
    let handle = InnerRawHandle::for_mock_completion(owner);
    for token in [41, 42] {
        let op = ConnectOp::new(&handle, inet_address(), 16).unwrap();
        let original = match &op.addr.storage {
            AddressStorage::Inet(storage) => storage.as_ptr(),
            AddressStorage::Unix(_) => panic!("expected internet address"),
        };
        // Moving the operation cannot invalidate its submitted address.
        let mut moved = Box::new(op);
        moved.completion_token = Some(token);
        let op = *moved;
        let held = op.cancel().unwrap();
        assert_eq!(held.driver, owner);
        assert_eq!(held.token, token);
        assert_eq!(held.storage.len, 16);
        match held.storage.storage {
            AddressStorage::Inet(storage) => {
                assert_eq!(storage.as_ptr(), original);
                assert_eq!(u16::from_le_bytes([storage[0], storage[1]]), AF_INET);
            }
            AddressStorage::Unix(_) => panic!("expected internet address"),
        }
    }
    assert!(ConnectOp::new(&handle, inet_address(), 16)
        .unwrap()
        .cancel()
        .is_none());
}

#[test]
fn invalid_address_lengths_are_rejected() {
    let handle = mock();
    for len in [0, 1, 2, 15, STORAGE_LEN as i64 + 1] {
        assert!(
            matches!(ConnectOp::new(&handle, inet_address(), len), Err(e) if e.kind() == Some(ErrorKind::InvalidInput))
        );
    }
    assert!(ConnectOp::new(&handle, inet_address(), -1).is_err());
    assert!(matches!(
        ConnectOp::new(&handle, inet_address(), -1),
        Err(IoError::Message(_, "negative socket address length"))
    ));
}

#[test]
fn internet_address_family_and_complete_structure_are_required() {
    let handle = mock();
    for address in [v4([192, 0, 2, 1], 1234), v6(0x2001, 1, 4321, 0, 0)] {
        let (storage, length) = socket_addr_to_raw(handle.addresses(), address);
        let length = length as i64;
        assert!(ConnectOp::new(&handle, storage, length).is_ok());
        assert!(
            matches!(ConnectOp::new(&handle, storage, length - 1), Err(error) if error.kind() == Some(ErrorKind::InvalidInput))
        );
        let mut wrong_family = storage;
        wrong_family[0] = 0;
        wrong_family[1] = 0;
        assert!(
            matches!(ConnectOp::new(&handle, wrong_family, length), Err(error) if error.kind() == Some(ErrorKind::InvalidInput))
        );
    }
}

#[test]
fn unix_address_storage_remains_stable() {
    let handle = mock();
    let mut addr = [0u8; 110];
    addr[..2].copy_from_slice(&AF_UNIX.to_le_bytes());
    addr[2] = b'x';
    let len = 4;
    let mut wrong_family = addr;
    wrong_family[..2].copy_from_slice(&AF_INET.to_le_bytes());
    assert!(
        matches!(ConnectOp::new_unix(&handle, wrong_family, len), Err(error) if error.kind() == Some(ErrorKind::InvalidInput))
    );
    assert!(ConnectOp::new_unix(&handle, addr, 1).is_err());
    assert!(ConnectOp::new_unix(&handle, addr, 111).is_err());
    let op = ConnectOp::new_unix(&handle, addr, len).unwrap();
    let original = match &op.addr.storage {
        AddressStorage::Unix(storage) => storage.as_ptr(),
        AddressStorage::Inet(_) => panic!("expected Unix address"),
    };
    let moved = Box::new(op);
    let AddressStorage::Unix(addr) = &moved.addr.storage else {
        panic!("expected Unix address")
    };
    assert_eq!(addr.as_ptr(), original);
    assert_eq!(addr[2], b'x');
    assert_eq!(AF_UNIX, libc::AF_UNIX as u16);
    assert_eq!(
        System::Linux.unix_len(),
        std::mem::size_of::<libc::sockaddr_un>()
    );
    // With a length byte, the family is the second byte and the address shorter.
    let mut macos = mock();
    macos.unix = Unix::Macos;
    let mut addr = [0u8; 110];
    addr[0] = 106;
    addr[1] = AF_UNIX as u8;
    assert!(ConnectOp::new_unix(&macos, addr, 106).is_ok());
    assert!(ConnectOp::new_unix(&macos, addr, 107).is_err());
    assert!(ConnectOp::new_unix(&handle, addr, 106).is_err());
}
