//! Where a packet came from.
use vstd::prelude::*;

verus! {

/// The address family of the fourth version of the internet protocol.
pub const AF_INET: i32 = 2;

/// The address family of the sixth version of the internet protocol.
pub const AF_INET6: i32 = 10;

/// The length of a socket address of the fourth version.
pub const SIZE_OF_SOCKADDR_IN: usize = 16;

/// The length of a socket address of the sixth version.
pub const SIZE_OF_SOCKADDR_IN6: usize = 28;

/// A socket address.
#[derive(Debug, Clone, Copy, PartialEq, Eq)]
pub enum SourceAddress {
    /// Of the fourth version.
    V4 {
        /// Address.
        octets: [u8; 4],
        /// Port.
        port: u16,
    },
    /// Of the sixth version.
    V6 {
        /// Address.
        octets: [u8; 16],
        /// Port.
        port: u16,
        /// Flow information.
        flowinfo: u32,
        /// Scope.
        scope_id: u32,
    },
}

/// The fields of a socket address as the kernel gives them.
#[derive(Debug, Clone, Copy)]
pub struct RawSocketAddress {
    /// Address family.
    pub family: i32,
    /// The two bytes of the port, the high one first.
    pub port: [u8; 2],
    /// Address, if it is of the fourth version.
    pub v4: [u8; 4],
    /// Address, if it is of the sixth version.
    pub v6: [u8; 16],
    /// Flow information, if it is of the sixth version.
    pub flowinfo: u32,
    /// Scope, if it is of the sixth version.
    pub scope_id: u32,
}

/// The port that two bytes spell.
pub open spec fn spelled_port(bytes: [u8; 2]) -> u16 {
    (bytes[0] * 256 + bytes[1]) as u16
}

/// The address that the kernel gave, `length` bytes of it. There is none if the family is another
/// one, or if the address was cut off.
pub open spec fn address_of(raw: RawSocketAddress, length: usize) -> Option<SourceAddress> {
    if raw.family == AF_INET && length >= SIZE_OF_SOCKADDR_IN {
        Some(SourceAddress::V4 { octets: raw.v4, port: spelled_port(raw.port) })
    } else if raw.family == AF_INET6 && length >= SIZE_OF_SOCKADDR_IN6 {
        Some(
            SourceAddress::V6 {
                octets: raw.v6,
                port: spelled_port(raw.port),
                flowinfo: raw.flowinfo,
                scope_id: raw.scope_id,
            },
        )
    } else {
        None
    }
}

/// Reads the address that the kernel gave.
pub fn sockaddr_storage_to_socket_addr(raw: RawSocketAddress, length: usize) -> (r: Option<SourceAddress>)
    ensures
        r == address_of(raw, length),
{
    let port: u16 = raw.port[0] as u16 * 256 + raw.port[1] as u16;
    if raw.family == AF_INET && length >= SIZE_OF_SOCKADDR_IN {
        Some(SourceAddress::V4 { octets: raw.v4, port })
    } else if raw.family == AF_INET6 && length >= SIZE_OF_SOCKADDR_IN6 {
        Some(
            SourceAddress::V6 {
                octets: raw.v6,
                port,
                flowinfo: raw.flowinfo,
                scope_id: raw.scope_id,
            },
        )
    } else {
        None
    }
}

/// An address is read exactly if it is of one of the two versions of the internet protocol and all of
/// it is there. It is told with the octets of its version, and its port is the high byte times 256 and
/// the low byte.
pub proof fn addresses_are_read_whole(raw: RawSocketAddress, length: usize)
    ensures
        address_of(raw, length) is Some <==> (raw.family == 2 && length >= 16) || (raw.family == 10 && length
            >= 28),
        address_of(raw, length) matches Some(SourceAddress::V4 { octets, port }) ==> raw.family == 2 && octets
            == raw.v4 && port == raw.port[0] * 256 + raw.port[1],
        address_of(raw, length) matches Some(SourceAddress::V6 { octets, port, flowinfo, scope_id })
            ==> raw.family == 10 && octets == raw.v6 && port == raw.port[0] * 256 + raw.port[1] && flowinfo
            == raw.flowinfo && scope_id == raw.scope_id,
{
}

} // verus!
