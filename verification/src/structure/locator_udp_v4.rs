use crate::common::endianness::{
    lemma_u32_round_trip, read_u32, u32_bytes, u32_from_bytes, write_u32, Endianness,
};
use crate::common::error::CodecError;
use vstd::prelude::*;

verus! {

/// A UDP locator over IPv4 in its compact form: the address as one number
/// and the port.
#[derive(Copy, Clone, Debug, PartialEq, Eq, Structural)]
pub struct LocatorUDPv4_t {
    /// The address "a.b.c.d" as `((a * 256 + b) * 256 + c) * 256 + d`.
    pub address: u32,
    pub port: u32,
}

/// The number that stands for the address "a.b.c.d".
pub open spec fn address_of_octets(a: u8, b: u8, c: u8, d: u8) -> u32 {
    (((a * 256 + b) * 256 + c) * 256 + d) as u32
}

impl LocatorUDPv4_t {
    #[verifier::allow_in_spec]
    pub fn LOCATORUDPv4_INVALID() -> LocatorUDPv4_t
        returns
            (LocatorUDPv4_t { address: 0, port: 0 }),
    {
        LocatorUDPv4_t { address: 0, port: 0 }
    }

    /// The locator of the socket address "a.b.c.d:port", where `octets` holds
    /// a, b, c and d.
    pub fn from_socket_addr(octets: [u8; 4], port: u16) -> (locator: LocatorUDPv4_t)
        ensures
            locator.address == address_of_octets(octets[0], octets[1], octets[2], octets[3]),
            locator.port == port,
    {
        let a: u32 = octets[0] as u32;
        let b: u32 = octets[1] as u32;
        let c: u32 = octets[2] as u32;
        let d: u32 = octets[3] as u32;
        LocatorUDPv4_t { address: ((a * 256 + b) * 256 + c) * 256 + d, port: port as u32 }
    }

    /// The octets a, b, c, d of the address "a.b.c.d" and the port of the
    /// socket address that the locator stands for. The port is cut to its low
    /// 16 bits.
    pub fn to_socket_addr(&self) -> (addr: ([u8; 4], u16))
        ensures
            address_of_octets(addr.0[0], addr.0[1], addr.0[2], addr.0[3]) == self.address,
            addr.1 == self.port % 0x1_0000,
    {
        let a: u8 = (self.address / 0x100_0000) as u8;
        let b: u8 = ((self.address / 0x1_0000) % 256) as u8;
        let c: u8 = ((self.address / 0x100) % 256) as u8;
        let d: u8 = (self.address % 256) as u8;
        ([a, b, c, d], (self.port % 0x1_0000) as u16)
    }

    /// The wire form: the address, then the port, four bytes each.
    pub open spec fn wire_bytes(&self, endianness: Endianness) -> Seq<u8> {
        u32_bytes(self.address, endianness) + u32_bytes(self.port, endianness)
    }

    /// The locator that stands at the front of `bytes`.
    pub open spec fn from_wire(bytes: Seq<u8>, endianness: Endianness) -> LocatorUDPv4_t {
        LocatorUDPv4_t {
            address: u32_from_bytes(bytes, endianness),
            port: u32_from_bytes(bytes.skip(4), endianness),
        }
    }

    /// The number of bytes that the wire form takes.
    pub fn minimum_bytes_needed() -> (n: usize)
        ensures
            n == 8,
    {
        8
    }

    /// Reads the locator at the front of `bytes`.
    pub fn read_from(bytes: &[u8], endianness: Endianness) -> (r: Result<
        LocatorUDPv4_t,
        CodecError,
    >)
        ensures
            r == if bytes@.len() >= 8 {
                Ok::<LocatorUDPv4_t, CodecError>(LocatorUDPv4_t::from_wire(bytes@, endianness))
            } else {
                Err(CodecError::InputTooShort)
            },
    {
        if bytes.len() < 8 {
            return Err(CodecError::InputTooShort);
        }
        assert(bytes@.skip(0) =~= bytes@);
        let address = read_u32(bytes, 0, endianness);
        let port = read_u32(bytes, 4, endianness);
        Ok(LocatorUDPv4_t { address, port })
    }

    /// Appends the wire form to `out`.
    pub fn write_to(&self, endianness: Endianness, out: &mut Vec<u8>)
        ensures
            final(out)@ == old(out)@ + self.wire_bytes(endianness),
    {
        write_u32(self.address, endianness, out);
        write_u32(self.port, endianness, out);
        assert(out@ =~= old(out)@ + self.wire_bytes(endianness));
    }

    /// A locator that is written and read back is unchanged.
    pub proof fn lemma_round_trip(self, endianness: Endianness, rest: Seq<u8>)
        ensures
            self.wire_bytes(endianness).len() == 8,
            LocatorUDPv4_t::from_wire(self.wire_bytes(endianness) + rest, endianness) == self,
    {
        let wire = self.wire_bytes(endianness) + rest;
        let tail = u32_bytes(self.port, endianness) + rest;
        assert(wire =~= u32_bytes(self.address, endianness) + tail);
        lemma_u32_round_trip(self.address, endianness, tail);
        assert(wire.skip(4) =~= tail);
        lemma_u32_round_trip(self.port, endianness, rest);
    }
}

/// A socket address whose locator is turned back into a socket address is
/// unchanged.
pub proof fn lemma_socket_addr_round_trip(a: u8, b: u8, c: u8, d: u8)
    ensures
        address_of_octets(a, b, c, d) / 0x100_0000 == a,
        (address_of_octets(a, b, c, d) / 0x1_0000) % 256 == b,
        (address_of_octets(a, b, c, d) / 0x100) % 256 == c,
        address_of_octets(a, b, c, d) % 256 == d,
{
}

} // verus!
