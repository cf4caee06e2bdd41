//! Socket addresses in the layout of the kernel.

use vstd::prelude::*;

use crate::error::{ErrorKind, IoError};
use crate::system::System;

verus! {

/// Size of the storage that holds an address of any family.
pub const STORAGE_LEN: usize = 128;

/// Size of an IPv4 address with its family and port.
pub const INET_LEN: usize = 16;

/// Size of an IPv6 address with its family, port, flow and scope.
pub const INET6_LEN: usize = 28;

/// The address family of IPv4.
pub const AF_INET: u16 = 2;

/// An address and port that a socket can be bound or connected to.
#[allow(inconsistent_fields)]
#[derive(Debug, Clone, Copy, PartialEq, Eq)]
pub enum SocketAddr {
    V4 { ip: [u8; 4], port: u16 },
    V6 { ip: [u8; 16], port: u16, flowinfo: u32, scope_id: u32 },
}

impl SocketAddr {
    /// The addresses have the same parts.
    pub open spec fn same(self, other: SocketAddr) -> bool {
        match (self, other) {
            (SocketAddr::V4 { ip, port }, SocketAddr::V4 { ip: ip2, port: port2 }) => ip@ == ip2@
                && port == port2,
            (
                SocketAddr::V6 { ip, port, flowinfo, scope_id },
                SocketAddr::V6 { ip: ip2, port: port2, flowinfo: flowinfo2, scope_id: scope_id2 },
            ) => ip@ == ip2@ && port == port2 && flowinfo == flowinfo2 && scope_id == scope_id2,
            _ => false,
        }
    }
}

/// How a machine lays addresses out: by its system, and by the byte order of the
/// fields that are not in network order.
#[derive(Debug, Clone, Copy, PartialEq, Eq, Structural)]
pub struct AddressFormat {
    pub system: System,
    pub big_endian: bool,
}

/// The family in the first two bytes of an address.
pub open spec fn family_in(bytes: Seq<u8>, format: AddressFormat) -> int {
    if format.system.length_byte() {
        bytes[1] as int
    } else {
        word(bytes, 0, format.big_endian)
    }
}

/// Read the family from the first two bytes of an address.
pub fn read_family(first: u8, second: u8, format: AddressFormat) -> (r: u16)
    ensures
        forall|bytes: Seq<u8>|
            bytes.len() >= 2 && bytes[0] == first && bytes[1] == second ==> r
                == #[trigger] family_in(bytes, format),
{
    if format.system.length_byte() {
        second as u16
    } else if format.big_endian {
        first as u16 * 256 + second as u16
    } else {
        first as u16 + second as u16 * 256
    }
}

/// Two bytes as a number, the first being the higher where `big`.
pub open spec fn word(bytes: Seq<u8>, at: int, big: bool) -> int {
    if big {
        bytes[at] * 256 + bytes[at + 1]
    } else {
        bytes[at] + bytes[at + 1] * 256
    }
}

/// Four bytes as a number, the first being the highest where `big`.
pub open spec fn long(bytes: Seq<u8>, at: int, big: bool) -> int {
    if big {
        word(bytes, at, big) * 65536 + word(bytes, at + 2, big)
    } else {
        word(bytes, at, big) + word(bytes, at + 2, big) * 65536
    }
}

fn read_word(bytes: &[u8; 128], at: usize, big: bool) -> (r: u16)
    requires
        at + 1 < 128,
    ensures
        r == word(bytes@, at as int, big),
{
    let first: u16 = bytes[at] as u16;
    let second: u16 = bytes[at + 1] as u16;
    if big {
        first * 256 + second
    } else {
        first + second * 256
    }
}

fn read_long(bytes: &[u8; 128], at: usize, big: bool) -> (r: u32)
    requires
        at + 3 < 128,
    ensures
        r == long(bytes@, at as int, big),
{
    let first: u32 = read_word(bytes, at, big) as u32;
    let second: u32 = read_word(bytes, at + 2, big) as u32;
    if big {
        first * 65536 + second
    } else {
        first + second * 65536
    }
}

fn write_word(bytes: &mut [u8; 128], at: usize, value: u16, big: bool)
    requires
        at + 1 < 128,
    ensures
        word(final(bytes)@, at as int, big) == value,
        forall|i: int|
            0 <= i < 128 && i != at && i != at + 1 ==> #[trigger] final(bytes)@[i] == old(
                bytes,
            )@[i],
{
    let high: u8 = (value / 256) as u8;
    let low: u8 = (value % 256) as u8;
    if big {
        bytes[at] = high;
        bytes[at + 1] = low;
    } else {
        bytes[at] = low;
        bytes[at + 1] = high;
    }
}

fn write_long(bytes: &mut [u8; 128], at: usize, value: u32, big: bool)
    requires
        at + 3 < 128,
    ensures
        long(final(bytes)@, at as int, big) == value,
        forall|i: int|
            0 <= i < 128 && !(at <= i < at + 4) ==> #[trigger] final(bytes)@[i] == old(bytes)@[i],
{
    let high: u16 = (value / 65536) as u16;
    let low: u16 = (value % 65536) as u16;
    if big {
        write_word(bytes, at, high, big);
        write_word(bytes, at + 2, low, big);
    } else {
        write_word(bytes, at, low, big);
        write_word(bytes, at + 2, high, big);
    }
}

/// The length that came with an address covers what its family needs, and no
/// more than there is.
pub open spec fn length_fits(length: usize, expected: usize, capacity: usize) -> bool {
    expected <= length <= capacity
}

pub open spec fn bad_length() -> IoError {
    IoError::Message(ErrorKind::InvalidData, "invalid source address length")
}

pub open spec fn bad_family() -> IoError {
    IoError::Message(ErrorKind::InvalidData, "unsupported socket family")
}

pub open spec fn outside_buffer() -> IoError {
    IoError::Message(ErrorKind::InvalidData, "socket address outside output buffer")
}

pub fn validate_address_length(length: usize, expected: usize, capacity: usize) -> (r: Result<
    (),
    IoError,
>)
    ensures
        r == if length_fits(length, expected, capacity) {
            Ok::<(), IoError>(())
        } else {
            Err(bad_length())
        },
{
    if length < expected || length > capacity {
        return Err(IoError::Message(ErrorKind::InvalidData, "invalid source address length"));
    }
    Ok(())
}

/// `result` is what address storage of the given length holds.
pub open spec fn decodes(
    format: AddressFormat,
    storage: Seq<u8>,
    length: usize,
    result: Result<SocketAddr, IoError>,
) -> bool {
    let family = family_in(storage, format);
    if family == AF_INET {
        if length_fits(length, INET_LEN, STORAGE_LEN) {
            result matches Ok(SocketAddr::V4 { ip, port }) && ip@ == storage.subrange(4, 8) && port
                == word(storage, 2, true)
        } else {
            result == Err::<SocketAddr, IoError>(bad_length())
        }
    } else if family == format.system.inet6() {
        if length_fits(length, INET6_LEN, STORAGE_LEN) {
            result matches Ok(SocketAddr::V6 { ip, port, flowinfo, scope_id }) && ip@
                == storage.subrange(8, 24) && port == word(storage, 2, true) && flowinfo == long(
                storage,
                4,
                format.big_endian,
            ) && scope_id == long(storage, 24, format.big_endian)
        } else {
            result == Err::<SocketAddr, IoError>(bad_length())
        }
    } else {
        result == Err::<SocketAddr, IoError>(bad_family())
    }
}

/// Decode address storage. The family tells which parts there are; the length
/// must cover them.
pub fn sockaddr_storage_to_socketaddr(
    format: AddressFormat,
    storage: &[u8; 128],
    length: usize,
) -> (r: Result<SocketAddr, IoError>)
    ensures
        decodes(format, storage@, length, r),
{
    let family: u16 = read_family(storage[0], storage[1], format);
    assert(family == family_in(storage@, format));
    if family == AF_INET {
        match validate_address_length(length, INET_LEN, STORAGE_LEN) {
            Ok(_) => {},
            Err(error) => {
                return Err(error);
            },
        }
        let port: u16 = read_word(storage, 2, true);
        let ip: [u8; 4] = [storage[4], storage[5], storage[6], storage[7]];
        assert(ip@ =~= storage@.subrange(4, 8));
        Ok(SocketAddr::V4 { ip, port })
    } else if family == format.system.inet6() {
        match validate_address_length(length, INET6_LEN, STORAGE_LEN) {
            Ok(_) => {},
            Err(error) => {
                return Err(error);
            },
        }
        let port: u16 = read_word(storage, 2, true);
        let ip: [u8; 16] = [
            storage[8],
            storage[9],
            storage[10],
            storage[11],
            storage[12],
            storage[13],
            storage[14],
            storage[15],
            storage[16],
            storage[17],
            storage[18],
            storage[19],
            storage[20],
            storage[21],
            storage[22],
            storage[23],
        ];
        assert(ip@ =~= storage@.subrange(8, 24));
        let flowinfo: u32 = read_long(storage, 4, format.big_endian);
        let scope_id: u32 = read_long(storage, 24, format.big_endian);
        Ok(SocketAddr::V6 { ip, port, flowinfo, scope_id })
    } else {
        Err(IoError::Message(ErrorKind::InvalidData, "unsupported socket family"))
    }
}

/// The storage of an address: what decodes to it, with zeros behind.
pub open spec fn encodes(
    format: AddressFormat,
    address: SocketAddr,
    storage: Seq<u8>,
    length: usize,
) -> bool {
    &&& storage.len() == STORAGE_LEN
    &&& format.system.length_byte() ==> storage[0] == length
    &&& word(storage, 2, true) == match address {
        SocketAddr::V4 { ip, port } => port,
        SocketAddr::V6 { ip, port, flowinfo, scope_id } => port,
    }
    &&& match address {
        SocketAddr::V4 { ip, port } => {
            &&& length == INET_LEN
            &&& family_in(storage, format) == AF_INET
            &&& storage.subrange(4, 8) == ip@
            &&& forall|i: int| 8 <= i < STORAGE_LEN ==> #[trigger] storage[i] == 0
        },
        SocketAddr::V6 { ip, port, flowinfo, scope_id } => {
            &&& length == INET6_LEN
            &&& family_in(storage, format) == format.system.inet6()
            &&& long(storage, 4, format.big_endian) == flowinfo
            &&& storage.subrange(8, 24) == ip@
            &&& long(storage, 24, format.big_endian) == scope_id
            &&& forall|i: int| 28 <= i < STORAGE_LEN ==> #[trigger] storage[i] == 0
        },
    }
}

/// Write the family of an address, and its length where the layout has one.
fn write_family(bytes: &mut [u8; 128], family: u16, length: u8, format: AddressFormat)
    requires
        family <= 255,
    ensures
        family_in(final(bytes)@, format) == family,
        format.system.length_byte() ==> final(bytes)@[0] == length,
        forall|i: int| 2 <= i < 128 ==> #[trigger] final(bytes)@[i] == old(bytes)@[i],
{
    if format.system.length_byte() {
        bytes[0] = length;
        bytes[1] = family as u8;
    } else {
        write_word(bytes, 0, family, format.big_endian);
    }
}

/// Lay an address out for the kernel, with the exact length of its family.
pub fn socket_addr_to_raw(format: AddressFormat, address: SocketAddr) -> (r: ([u8; 128], usize))
    ensures
        encodes(format, address, r.0@, r.1),
{
    let mut storage: [u8; 128] = [0u8; 128];
    match address {
        SocketAddr::V4 { ip, port } => {
            write_family(&mut storage, AF_INET, INET_LEN as u8, format);
            write_word(&mut storage, 2, port, true);
            let mut i: usize = 0;
            while i < 4
                invariant
                    i <= 4,
                    family_in(storage@, format) == AF_INET,
                    format.system.length_byte() ==> storage@[0] == INET_LEN,
                    word(storage@, 2, true) == port,
                    forall|j: int| 0 <= j < i ==> #[trigger] storage@[4 + j] == ip@[j],
                    forall|j: int| 4 + i <= j < 128 ==> #[trigger] storage@[j] == 0,
                decreases 4 - i,
            {
                storage[4 + i] = ip[i];
                i += 1;
            }
            proof {
                assert forall|j: int| 0 <= j < 4 implies storage@.subrange(4, 8)[j] == ip@[j] by {
                    assert(storage@[4 + j] == ip@[j]);
                }
                assert(storage@.subrange(4, 8) =~= ip@);
            }
            (storage, INET_LEN)
        },
        SocketAddr::V6 { ip, port, flowinfo, scope_id } => {
            write_family(&mut storage, format.system.inet6(), INET6_LEN as u8, format);
            write_word(&mut storage, 2, port, true);
            write_long(&mut storage, 4, flowinfo, format.big_endian);
            write_long(&mut storage, 24, scope_id, format.big_endian);
            let mut i: usize = 0;
            while i < 16
                invariant
                    i <= 16,
                    family_in(storage@, format) == format.system.inet6(),
                    format.system.length_byte() ==> storage@[0] == INET6_LEN,
                    word(storage@, 2, true) == port,
                    long(storage@, 4, format.big_endian) == flowinfo,
                    long(storage@, 24, format.big_endian) == scope_id,
                    forall|j: int| 0 <= j < i ==> #[trigger] storage@[8 + j] == ip@[j],
                    forall|j: int| 28 <= j < 128 ==> #[trigger] storage@[j] == 0,
                decreases 16 - i,
            {
                storage[8 + i] = ip[i];
                i += 1;
            }
            proof {
                assert forall|j: int| 0 <= j < 16 implies storage@.subrange(8, 24)[j]
                    == ip@[j] by {
                    assert(storage@[8 + j] == ip@[j]);
                }
                assert(storage@.subrange(8, 24) =~= ip@);
            }
            (storage, INET6_LEN)
        },
    }
}

/// The storage that holds some bytes and zeros behind them.
pub open spec fn padded(bytes: Seq<u8>) -> Seq<u8> {
    Seq::new(
        STORAGE_LEN as nat,
        |i: int|
            if i < bytes.len() {
                bytes[i]
            } else {
                0
            },
    )
}

/// An address that was written into a buffer lies inside it.
pub open spec fn inside(buffer: Seq<u8>, base: usize, address: usize, length: i32) -> bool {
    base <= address && 0 <= length && address - base + length <= buffer.len()
}

/// Decode an address that was written into `buffer`, which starts at `base`. The
/// address selects bytes only after it was held against the bounds of the
/// buffer, so that any address and length are safe to pass.
pub fn socketaddr_from_buffer(
    format: AddressFormat,
    buffer: &[u8],
    base: usize,
    address: usize,
    length: i32,
) -> (r: Result<SocketAddr, IoError>)
    ensures
        !inside(buffer@, base, address, length) ==> r == Err::<SocketAddr, IoError>(
            outside_buffer(),
        ),
        inside(buffer@, base, address, length) && length > STORAGE_LEN ==> r == Err::<
            SocketAddr,
            IoError,
        >(bad_length()),
        inside(buffer@, base, address, length) && length <= STORAGE_LEN ==> decodes(
            format,
            padded(buffer@.subrange(address - base, address - base + length)),
            length as usize,
            r,
        ),
{
    if address < base || length < 0 {
        return Err(
            IoError::Message(ErrorKind::InvalidData, "socket address outside output buffer"),
        );
    }
    let offset: usize = address - base;
    let count: usize = length as usize;
    let available: usize = buffer.len();
    if offset > available || count > available - offset {
        return Err(
            IoError::Message(ErrorKind::InvalidData, "socket address outside output buffer"),
        );
    }
    match validate_address_length(count, 0, STORAGE_LEN) {
        Ok(_) => {},
        Err(error) => {
            return Err(error);
        },
    }
    let mut storage: [u8; 128] = [0u8; 128];
    let mut i: usize = 0;
    while i < count
        invariant
            i <= count <= STORAGE_LEN,
            offset + count <= available == buffer@.len(),
            forall|j: int| 0 <= j < i ==> #[trigger] storage@[j] == buffer@[offset + j],
            forall|j: int| i <= j < STORAGE_LEN ==> #[trigger] storage@[j] == 0,
        decreases count - i,
    {
        storage[i] = buffer[offset + i];
        i += 1;
    }
    assert(storage@ =~= padded(buffer@.subrange(offset as int, offset + count)));
    sockaddr_storage_to_socketaddr(format, &storage, count)
}

/// What is laid out for the kernel decodes to the same address.
pub proof fn addresses_round_trip(
    format: AddressFormat,
    address: SocketAddr,
    storage: Seq<u8>,
    length: usize,
    decoded: Result<SocketAddr, IoError>,
)
    requires
        encodes(format, address, storage, length),
        decodes(format, storage, length, decoded),
    ensures
        decoded matches Ok(back) && back.same(address),
{
}

/// An IPv4 address is laid out byte by byte: its family, by the layout of the system
/// after a byte that holds the length, its port with the high byte first, then its four
/// bytes in order, and zeros.
pub proof fn ipv4_addresses_are_laid_out_in_order(
    format: AddressFormat,
    ip: [u8; 4],
    port: u16,
    storage: [u8; 128],
    length: usize,
    i: int,
)
    requires
        call_ensures(socket_addr_to_raw, (format, SocketAddr::V4 { ip, port }), (storage, length)),
    ensures
        length == 16,
        match (format.system, format.big_endian) {
            (System::Macos, _) => storage@[0] == 16 && storage@[1] == 2,
            (System::Linux, false) => storage@[0] == 2 && storage@[1] == 0,
            (System::Linux, true) => storage@[0] == 0 && storage@[1] == 2,
            (System::Windows, false) => storage@[0] == 2 && storage@[1] == 0,
            (System::Windows, true) => storage@[0] == 0 && storage@[1] == 2,
        },
        storage@[2] * 256 + storage@[3] == port,
        0 <= i < 4 ==> storage@[4 + i] == ip@[i],
        8 <= i < 128 ==> storage@[i] == 0,
{
    assert(0 <= i < 4 ==> storage@.subrange(4, 8)[i] == storage@[4 + i]);
}

/// An IPv6 address is laid out byte by byte: its family, by the layout of the system
/// after a byte that holds the length, its port with the high byte first, its flow in the
/// order of the machine, its sixteen bytes in order, its scope in the order of the
/// machine, and zeros.
pub proof fn ipv6_addresses_are_laid_out_in_order(
    format: AddressFormat,
    ip: [u8; 16],
    port: u16,
    flowinfo: u32,
    scope_id: u32,
    storage: [u8; 128],
    length: usize,
    i: int,
)
    requires
        call_ensures(
            socket_addr_to_raw,
            (format, SocketAddr::V6 { ip, port, flowinfo, scope_id }),
            (storage, length),
        ),
    ensures
        length == 28,
        match (format.system, format.big_endian) {
            (System::Macos, _) => storage@[0] == 28 && storage@[1] == 30,
            (System::Linux, false) => storage@[0] == 10 && storage@[1] == 0,
            (System::Linux, true) => storage@[0] == 0 && storage@[1] == 10,
            (System::Windows, false) => storage@[0] == 23 && storage@[1] == 0,
            (System::Windows, true) => storage@[0] == 0 && storage@[1] == 23,
        },
        storage@[2] * 256 + storage@[3] == port,
        (if format.big_endian {
            storage@[4] * 0x100_0000 + storage@[5] * 0x1_0000 + storage@[6] * 0x100 + storage@[7]
        } else {
            storage@[4] + storage@[5] * 0x100 + storage@[6] * 0x1_0000 + storage@[7] * 0x100_0000
        }) == flowinfo,
        0 <= i < 16 ==> storage@[8 + i] == ip@[i],
        (if format.big_endian {
            storage@[24] * 0x100_0000 + storage@[25] * 0x1_0000 + storage@[26] * 0x100 + storage@[27]
        } else {
            storage@[24] + storage@[25] * 0x100 + storage@[26] * 0x1_0000 + storage@[27] * 0x100_0000
        }) == scope_id,
        28 <= i < 128 ==> storage@[i] == 0,
{
    assert(0 <= i < 16 ==> storage@.subrange(8, 24)[i] == storage@[8 + i]);
}

/// A stored address is decoded byte by byte, by the family that it holds: its port with
/// the high byte first, its bytes in order, and its flow and scope in the order of the
/// machine. The length must cover the address and lie in the storage; no other family
/// is known.
pub proof fn addresses_are_decoded_in_order(
    format: AddressFormat,
    storage: [u8; 128],
    length: usize,
    r: Result<SocketAddr, IoError>,
    i: int,
)
    requires
        call_ensures(sockaddr_storage_to_socketaddr, (format, &storage, length), r),
    ensures
        ({
            let family = match (format.system, format.big_endian) {
                (System::Macos, _) => storage@[1] as int,
                (_, true) => storage@[0] * 256 + storage@[1],
                (_, false) => storage@[0] + storage@[1] * 256,
            };
            let inet6 = match format.system {
                System::Linux => 10int,
                System::Macos => 30int,
                System::Windows => 23int,
            };
            &&& r is Ok <==> (family == 2 && 16 <= length <= 128) || (family == inet6 && 28
                <= length
                <= 128)
            &&& r matches Ok(SocketAddr::V4 { ip, port }) ==> family == 2
            &&& r matches Ok(SocketAddr::V6 { ip, port, flowinfo, scope_id }) ==> family == inet6
        }),
        r matches Ok(SocketAddr::V4 { ip, port }) ==> {
            &&& port == storage@[2] * 256 + storage@[3]
            &&& 0 <= i < 4 ==> ip@[i] == storage@[4 + i]
        },
        r matches Ok(SocketAddr::V6 { ip, port, flowinfo, scope_id }) ==> {
            &&& port == storage@[2] * 256 + storage@[3]
            &&& 0 <= i < 16 ==> ip@[i] == storage@[8 + i]
            &&& flowinfo == (if format.big_endian {
            storage@[4] * 0x100_0000 + storage@[5] * 0x1_0000 + storage@[6] * 0x100 + storage@[7]
        } else {
            storage@[4] + storage@[5] * 0x100 + storage@[6] * 0x1_0000 + storage@[7] * 0x100_0000
        })
            &&& scope_id == (if format.big_endian {
            storage@[24] * 0x100_0000 + storage@[25] * 0x1_0000 + storage@[26] * 0x100 + storage@[27]
        } else {
            storage@[24] + storage@[25] * 0x100 + storage@[26] * 0x1_0000 + storage@[27] * 0x100_0000
        })
        },
        r matches Err(error) ==> (error matches IoError::Message(kind, _) && kind is InvalidData),
{
    assert(0 <= i < 4 ==> storage@.subrange(4, 8)[i] == storage@[4 + i]);
    assert(0 <= i < 16 ==> storage@.subrange(8, 24)[i] == storage@[8 + i]);
}

/// Different addresses are laid out differently, and every address decodes to itself.
pub proof fn addresses_are_told_apart(
    format: AddressFormat,
    a: SocketAddr,
    b: SocketAddr,
    raw: ([u8; 128], usize),
    back: Result<SocketAddr, IoError>,
)
    requires
        call_ensures(socket_addr_to_raw, (format, a), raw),
        call_ensures(sockaddr_storage_to_socketaddr, (format, &raw.0, raw.1), back),
    ensures
        back matches Ok(own) && match (a, own) {
            (SocketAddr::V4 { ip, port }, SocketAddr::V4 { ip: ip2, port: port2 }) => ip@ == ip2@
                && port == port2,
            (
                SocketAddr::V6 { ip, port, flowinfo, scope_id },
                SocketAddr::V6 { ip: ip2, port: port2, flowinfo: flowinfo2, scope_id: scope_id2 },
            ) => ip@ == ip2@ && port == port2 && flowinfo == flowinfo2 && scope_id == scope_id2,
            _ => false,
        },
        call_ensures(socket_addr_to_raw, (format, b), raw) ==> b.same(a),
{
}

/// An address in a buffer is decoded from its very bytes: one that does not lie in the
/// buffer with all of its length is refused, and so is one longer than any address.
pub proof fn addresses_in_a_buffer_are_decoded_in_place(
    format: AddressFormat,
    buffer: &[u8],
    base: usize,
    address: usize,
    length: i32,
    r: Result<SocketAddr, IoError>,
    storage: [u8; 128],
    decoded: Result<SocketAddr, IoError>,
)
    requires
        call_ensures(socketaddr_from_buffer, (format, buffer, base, address, length), r),
        forall|i: int|
            0 <= i < 128 ==> #[trigger] storage@[i] == if i < length {
                buffer@[address - base + i]
            } else {
                0
            },
        length >= 0 ==> call_ensures(
            sockaddr_storage_to_socketaddr,
            (format, &storage, length as usize),
            decoded,
        ),
    ensures
        address < base || length < 0 || length > 128
            || address - base + length > buffer@.len() ==> (r
            matches Err(error) && (error matches IoError::Message(kind, _) && kind is InvalidData)),
        base <= address && 0 <= length <= 128 && address - base + length <= buffer@.len()
            ==> match (
            r,
            decoded,
        ) {
            (Ok(a), Ok(b)) => a.same(b),
            (Err(a), Err(b)) => a == b,
            _ => false,
        },
{
    if base <= address && 0 <= length <= 128 && address - base + length <= buffer@.len() {
        let part = buffer@.subrange(address - base, address - base + length);
        assert(padded(part) =~= storage@);
    }
}

/// A length is right exactly where it covers what is expected and lies in the storage.
pub proof fn address_lengths_are_bounded(
    length: usize,
    expected: usize,
    capacity: usize,
    r: Result<(), IoError>,
)
    requires
        call_ensures(validate_address_length, (length, expected, capacity), r),
    ensures
        r is Ok <==> expected <= length && length <= capacity,
        r matches Err(error) ==> (error matches IoError::Message(kind, _) && kind is InvalidData),
{
}

/// The family of an address is its second byte behind a length, or both bytes in the
/// order of the machine.
pub proof fn families_are_read_in_the_order_of_the_machine(
    format: AddressFormat,
    first: u8,
    second: u8,
    r: u16,
)
    requires
        call_ensures(read_family, (first, second, format), r),
    ensures
        format.system is Macos ==> r == second,
        !(format.system is Macos) && format.big_endian ==> r == first * 256 + second,
        !(format.system is Macos) && !format.big_endian ==> r == first + second * 256,
{
    let bytes = seq![first, second];
    assert(bytes[0] == first && bytes[1] == second);
    assert(r == family_in(bytes, format));
}

/// Two addresses are the same exactly where all their parts are.
pub proof fn same_addresses_agree_in_every_part(
    a: SocketAddr,
    b: SocketAddr,
)
    requires
        a.same(b),
    ensures
        a is V4 <==> b is V4,
        a matches SocketAddr::V4 { ip, port } ==> (b matches SocketAddr::V4 { ip: ip2, port: port2 }
            && ip@ == ip2@ && port == port2),
        a matches SocketAddr::V6 { ip, port, flowinfo, scope_id } ==> (b matches SocketAddr::V6 {
            ip: ip2,
            port: port2,
            flowinfo: flowinfo2,
            scope_id: scope_id2,
        } && ip@ == ip2@ && port == port2 && flowinfo == flowinfo2 && scope_id == scope_id2),
{
}

/// What is called the layout of an address is the one that is written for the kernel.
pub proof fn layouts_are_unique(
    format: AddressFormat,
    address: SocketAddr,
    storage: Seq<u8>,
    length: usize,
    raw: ([u8; 128], usize),
)
    requires
        encodes(format, address, storage, length),
        call_ensures(socket_addr_to_raw, (format, address), raw),
    ensures
        storage == raw.0@ && length == raw.1,
{
    lemma_layout(format, address, storage, length, raw.0@, raw.1);
}

/// A number of two bytes tells both of them.
proof fn lemma_word(a: Seq<u8>, b: Seq<u8>, at: int, big: bool)
    requires
        word(a, at, big) == word(b, at, big),
    ensures
        a[at] == b[at],
        a[at + 1] == b[at + 1],
{
}

/// A number of four bytes tells all of them.
proof fn lemma_long(a: Seq<u8>, b: Seq<u8>, at: int, big: bool)
    requires
        long(a, at, big) == long(b, at, big),
    ensures
        a[at] == b[at],
        a[at + 1] == b[at + 1],
        a[at + 2] == b[at + 2],
        a[at + 3] == b[at + 3],
{
    assert(word(a, at, big) == word(b, at, big) && word(a, at + 2, big) == word(b, at + 2, big));
    lemma_word(a, b, at, big);
    lemma_word(a, b, at + 2, big);
}

proof fn lemma_layout(
    format: AddressFormat,
    address: SocketAddr,
    a: Seq<u8>,
    a_len: usize,
    b: Seq<u8>,
    b_len: usize,
)
    requires
        encodes(format, address, a, a_len),
        encodes(format, address, b, b_len),
    ensures
        a == b,
        a_len == b_len,
{
    lemma_word(a, b, 2, true);
    if !format.system.length_byte() {
        lemma_word(a, b, 0, format.big_endian);
    }
    match address {
        SocketAddr::V4 { ip, port } => {
            assert forall|i: int| 4 <= i < 8 implies a[i] == b[i] by {
                assert(a.subrange(4, 8)[i - 4] == b.subrange(4, 8)[i - 4]);
            }
        },
        SocketAddr::V6 { ip, port, flowinfo, scope_id } => {
            lemma_long(a, b, 4, format.big_endian);
            lemma_long(a, b, 24, format.big_endian);
            assert forall|i: int| 8 <= i < 24 implies a[i] == b[i] by {
                assert(a.subrange(8, 24)[i - 8] == b.subrange(8, 24)[i - 8]);
            }
        },
    }
    assert(a =~= b);
}

/// Storage decodes in one way: whatever is called its decoding agrees with what decoding
/// it gives.
pub proof fn decodings_are_unique(
    format: AddressFormat,
    storage: [u8; 128],
    length: usize,
    claimed: Result<SocketAddr, IoError>,
    decoded: Result<SocketAddr, IoError>,
)
    requires
        decodes(format, storage@, length, claimed),
        call_ensures(sockaddr_storage_to_socketaddr, (format, &storage, length), decoded),
    ensures
        match (claimed, decoded) {
            (Ok(a), Ok(b)) => a.same(b),
            (Err(a), Err(b)) => a == b,
            _ => false,
        },
{
}

} // verus!
