use vstd::prelude::*;
use crate::byte_array_32::ByteArray32;

verus! {

/// An IP address as its octets in network byte order.
#[derive(Clone, Copy, Debug, PartialEq, Eq)]
pub enum IpAddress {
    V4([u8; 4]),
    V6([u8; 16]),
}

/// The source endpoint of a datagram: an IP address and a port.
#[derive(Clone, Copy, Debug, PartialEq, Eq)]
pub struct RemoteAddress {
    pub ip: IpAddress,
    pub port: u16,
}

impl RemoteAddress {
    pub fn new(ip: IpAddress, port: u16) -> (r: RemoteAddress)
        ensures
            r.ip == ip,
            r.port == port,
    {
        RemoteAddress { ip, port }
    }

    pub fn ip(&self) -> (r: IpAddress)
        ensures
            r == self.ip,
    {
        self.ip
    }

    pub fn port(&self) -> (r: u16)
        ensures
            r == self.port,
    {
        self.port
    }
}

/// `n` zero bytes.
pub open spec fn zeros(n: nat) -> Seq<u8> {
    Seq::new(n, |_i: int| 0u8)
}

/// The 32-byte block of an address: leading zeros, then its octets.
pub open spec fn ip_block(ip: IpAddress) -> Seq<u8> {
    match ip {
        IpAddress::V4(octets) => zeros(28) + octets@,
        IpAddress::V6(octets) => zeros(16) + octets@,
    }
}

/// The 32-byte block of a port: 30 zero bytes, then the port in big-endian
/// order.
pub open spec fn port_block(port: u16) -> Seq<u8> {
    zeros(30) + seq![(port / 0x100) as u8, (port % 0x100) as u8]
}

impl From<IpAddress> for ByteArray32 {
    fn from(ip: IpAddress) -> (r: ByteArray32)
        ensures
            r@ == ip_block(ip),
    {
        let mut bytes: [u8; 32] = [0u8; 32];
        match ip {
            IpAddress::V4(octets) => {
                let mut i: usize = 0;
                while i < 4
                    invariant
                        i <= 4,
                        forall|j: int| 0 <= j < 28 ==> bytes@[j] == 0u8,
                        forall|j: int| 0 <= j < i ==> bytes@[28 + j] == octets@[j],
                        forall|j: int| 28 + i <= j < 32 ==> bytes@[j] == 0u8,
                    decreases 4 - i,
                {
                    bytes[28 + i] = octets[i];
                    i = i + 1;
                }
                assert(bytes@ =~= ip_block(ip));
            },
            IpAddress::V6(octets) => {
                let mut i: usize = 0;
                while i < 16
                    invariant
                        i <= 16,
                        forall|j: int| 0 <= j < 16 ==> bytes@[j] == 0u8,
                        forall|j: int| 0 <= j < i ==> bytes@[16 + j] == octets@[j],
                        forall|j: int| 16 + i <= j < 32 ==> bytes@[j] == 0u8,
                    decreases 16 - i,
                {
                    bytes[16 + i] = octets[i];
                    i = i + 1;
                }
                assert(bytes@ =~= ip_block(ip));
            },
        }
        ByteArray32::new(bytes)
    }
}

impl vstd::std_specs::convert::FromSpecImpl<IpAddress> for ByteArray32 {
    open spec fn obeys_from_spec() -> bool {
        true
    }

    open spec fn from_spec(ip: IpAddress) -> ByteArray32 {
        ByteArray32::of_bytes(ip_block(ip))
    }
}

impl From<u16> for ByteArray32 {
    fn from(port: u16) -> (r: ByteArray32)
        ensures
            r@ == port_block(port),
    {
        let mut bytes: [u8; 32] = [0u8; 32];
        bytes[30] = (port / 0x100) as u8;
        bytes[31] = (port % 0x100) as u8;
        assert(bytes@ =~= port_block(port));
        ByteArray32::new(bytes)
    }
}

impl vstd::std_specs::convert::FromSpecImpl<u16> for ByteArray32 {
    open spec fn obeys_from_spec() -> bool {
        true
    }

    open spec fn from_spec(port: u16) -> ByteArray32 {
        ByteArray32::of_bytes(port_block(port))
    }
}

/// Distinct ports have distinct blocks.
pub proof fn lemma_port_block_injective(first: u16, second: u16)
    requires
        first != second,
    ensures
        port_block(first) != port_block(second),
{
    if port_block(first) == port_block(second) {
        assert(port_block(first)[30] == port_block(second)[30]);
        assert(port_block(first)[31] == port_block(second)[31]);
        assert(first == second) by (nonlinear_arith)
            requires
                first / 256 == second / 256,
                first % 256 == second % 256,
        ;
    }
}

/// Distinct addresses of the same family have distinct blocks.
pub proof fn lemma_ip_block_injective(a1: IpAddress, a2: IpAddress)
    requires
        a1 != a2,
        (a1 is V4) == (a2 is V4),
    ensures
        ip_block(a1) != ip_block(a2),
{
    if ip_block(a1) == ip_block(a2) {
        match (a1, a2) {
            (IpAddress::V4(o1), IpAddress::V4(o2)) => {
                assert forall|i: int| 0 <= i < 4 implies o1[i] == o2[i] by {
                    assert(ip_block(a1)[28 + i] == ip_block(a2)[28 + i]);
                }
                assert(o1 =~= o2);
            },
            (IpAddress::V6(o1), IpAddress::V6(o2)) => {
                assert forall|i: int| 0 <= i < 16 implies o1[i] == o2[i] by {
                    assert(ip_block(a1)[16 + i] == ip_block(a2)[16 + i]);
                }
                assert(o1 =~= o2);
            },
            _ => {},
        }
    }
}

} // verus!
