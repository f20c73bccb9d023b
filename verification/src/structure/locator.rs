use crate::common::endianness::{
    i32_bytes, i32_from_bytes, lemma_i32_round_trip, lemma_u32_round_trip, read_i32, read_u32,
    u32_bytes, u32_from_bytes, write_bytes, write_i32, write_u32, Endianness,
};
use crate::common::error::CodecError;
use vstd::prelude::*;
use vstd::slice::slice_subrange;

verus! {

/// The kind of transport that a locator addresses.
#[derive(Copy, Clone, Debug, PartialEq, Eq, Structural)]
pub struct LocatorKind_t {
    pub value: i32,
}

impl LocatorKind_t {
    #[verifier::allow_in_spec]
    pub fn LOCATOR_KIND_INVALID() -> LocatorKind_t
        returns
            (LocatorKind_t { value: -1i32 }),
    {
        LocatorKind_t { value: -1i32 }
    }

    #[verifier::allow_in_spec]
    pub fn LOCATOR_KIND_RESERVED() -> LocatorKind_t
        returns
            (LocatorKind_t { value: 0 }),
    {
        LocatorKind_t { value: 0 }
    }

    #[verifier::allow_in_spec]
    pub fn LOCATOR_KIND_UDPv4() -> LocatorKind_t
        returns
            (LocatorKind_t { value: 1 }),
    {
        LocatorKind_t { value: 1 }
    }

    #[verifier::allow_in_spec]
    pub fn LOCATOR_KIND_UDPv6() -> LocatorKind_t
        returns
            (LocatorKind_t { value: 2 }),
    {
        LocatorKind_t { value: 2 }
    }
}

/// An address on some transport: the kind of transport, a port and sixteen
/// bytes of address.
#[derive(Copy, Clone, Debug, PartialEq, Eq)]
pub struct Locator_t {
    pub kind: LocatorKind_t,
    pub port: u32,
    pub address: [u8; 16],
}

/// A list of locators. On the wire: their number as four bytes, then the
/// locators.
pub type LocatorList_t = Vec<Locator_t>;

/// The bytes that a locator takes on the wire.
pub const LOCATOR_SIZE: usize = 24;

impl Locator_t {
    #[verifier::allow_in_spec]
    pub fn LOCATOR_PORT_INVALID() -> u32
        returns
            0u32,
    {
        0
    }

    #[verifier::allow_in_spec]
    pub fn LOCATOR_ADDRESS_INVALID() -> [u8; 16]
        returns
            ([0x00u8, 0, 0, 0, 0, 0, 0, 0, 0, 0, 0, 0, 0, 0, 0, 0]),
    {
        [0x00u8, 0, 0, 0, 0, 0, 0, 0, 0, 0, 0, 0, 0, 0, 0, 0]
    }

    /// The locator that addresses nothing.
    #[verifier::allow_in_spec]
    pub fn LOCATOR_INVALID() -> Locator_t
        returns
            (Locator_t {
                kind: LocatorKind_t { value: -1i32 },
                port: 0,
                address: [0x00u8, 0, 0, 0, 0, 0, 0, 0, 0, 0, 0, 0, 0, 0, 0, 0],
            }),
    {
        Locator_t {
            kind: LocatorKind_t { value: -1i32 },
            port: 0,
            address: [0x00u8, 0, 0, 0, 0, 0, 0, 0, 0, 0, 0, 0, 0, 0, 0, 0],
        }
    }

    /// The locator with no port and no address on a transport of `kind`.
    #[verifier::allow_in_spec]
    pub fn unaddressed(kind: LocatorKind_t) -> Locator_t
        returns
            (Locator_t {
                kind,
                port: 0,
                address: [0x00u8, 0, 0, 0, 0, 0, 0, 0, 0, 0, 0, 0, 0, 0, 0, 0],
            }),
    {
        Locator_t {
            kind,
            port: 0,
            address: [0x00u8, 0, 0, 0, 0, 0, 0, 0, 0, 0, 0, 0, 0, 0, 0, 0],
        }
    }

    /// The locator of the UDP socket "a.b.c.d:port" over IPv4, where `octets`
    /// holds a, b, c and d: they are the last four bytes of the address, and
    /// the first twelve are zero.
    pub fn from_udp_v4(octets: [u8; 4], port: u16) -> (locator: Locator_t)
        ensures
            locator.kind == LocatorKind_t::LOCATOR_KIND_UDPv4(),
            locator.port == port,
            locator.address@ == seq![0u8, 0, 0, 0, 0, 0, 0, 0, 0, 0, 0, 0] + octets@,
    {
        let locator = Locator_t {
            kind: LocatorKind_t::LOCATOR_KIND_UDPv4(),
            port: port as u32,
            address: [
                0,
                0,
                0,
                0,
                0,
                0,
                0,
                0,
                0,
                0,
                0,
                0,
                octets[0],
                octets[1],
                octets[2],
                octets[3],
            ],
        };
        assert(locator.address@ =~= seq![0u8, 0, 0, 0, 0, 0, 0, 0, 0, 0, 0, 0] + octets@);
        locator
    }

    /// The locator of the UDP socket over IPv6 with the address `octets` and
    /// the port `port`.
    pub fn from_udp_v6(octets: [u8; 16], port: u16) -> (locator: Locator_t)
        ensures
            locator.kind == LocatorKind_t::LOCATOR_KIND_UDPv6(),
            locator.port == port,
            locator.address == octets,
    {
        Locator_t { kind: LocatorKind_t::LOCATOR_KIND_UDPv6(), port: port as u32, address: octets }
    }

    /// The wire form: the kind and the port, four bytes each, then the
    /// address in its order, whatever the endianness.
    pub open spec fn wire_bytes(&self, endianness: Endianness) -> Seq<u8> {
        i32_bytes(self.kind.value, endianness) + u32_bytes(self.port, endianness) + self.address@
    }

    /// The locator that stands at the front of `bytes`.
    pub open spec fn from_wire(bytes: Seq<u8>, endianness: Endianness) -> Locator_t {
        Locator_t {
            kind: LocatorKind_t { value: i32_from_bytes(bytes, endianness) },
            port: u32_from_bytes(bytes.skip(4), endianness),
            address: [
                bytes[8],
                bytes[9],
                bytes[10],
                bytes[11],
                bytes[12],
                bytes[13],
                bytes[14],
                bytes[15],
                bytes[16],
                bytes[17],
                bytes[18],
                bytes[19],
                bytes[20],
                bytes[21],
                bytes[22],
                bytes[23],
            ],
        }
    }

    /// The number of bytes that the wire form takes.
    pub fn minimum_bytes_needed() -> (n: usize)
        ensures
            n == LOCATOR_SIZE,
    {
        LOCATOR_SIZE
    }

    /// Reads the locator at the front of `bytes`.
    pub fn read_from(bytes: &[u8], endianness: Endianness) -> (r: Result<Locator_t, CodecError>)
        ensures
            r == if bytes@.len() >= LOCATOR_SIZE {
                Ok::<Locator_t, CodecError>(Locator_t::from_wire(bytes@, endianness))
            } else {
                Err(CodecError::InputTooShort)
            },
    {
        if bytes.len() < LOCATOR_SIZE {
            return Err(CodecError::InputTooShort);
        }
        assert(bytes@.skip(0) =~= bytes@);
        let kind = read_i32(bytes, 0, endianness);
        let port = read_u32(bytes, 4, endianness);
        let locator = Locator_t {
            kind: LocatorKind_t { value: kind },
            port,
            address: [
                bytes[8],
                bytes[9],
                bytes[10],
                bytes[11],
                bytes[12],
                bytes[13],
                bytes[14],
                bytes[15],
                bytes[16],
                bytes[17],
                bytes[18],
                bytes[19],
                bytes[20],
                bytes[21],
                bytes[22],
                bytes[23],
            ],
        };
        assert(locator.address =~= Locator_t::from_wire(bytes@, endianness).address);
        Ok(locator)
    }

    /// Appends the wire form to `out`.
    pub fn write_to(&self, endianness: Endianness, out: &mut Vec<u8>)
        ensures
            final(out)@ == old(out)@ + self.wire_bytes(endianness),
    {
        write_i32(self.kind.value, endianness, out);
        write_u32(self.port, endianness, out);
        write_bytes(self.address.as_slice(), out);
        assert(out@ =~= old(out)@ + self.wire_bytes(endianness));
    }

    /// A locator that is written and read back is unchanged.
    pub proof fn lemma_round_trip(self, endianness: Endianness, rest: Seq<u8>)
        ensures
            self.wire_bytes(endianness).len() == LOCATOR_SIZE,
            Locator_t::from_wire(self.wire_bytes(endianness) + rest, endianness) == self,
    {
        let wire = self.wire_bytes(endianness) + rest;
        let after_kind = u32_bytes(self.port, endianness) + self.address@ + rest;
        assert(wire =~= i32_bytes(self.kind.value, endianness) + after_kind);
        lemma_i32_round_trip(self.kind.value, endianness, after_kind);
        assert(wire.skip(4) =~= u32_bytes(self.port, endianness) + (self.address@ + rest));
        lemma_u32_round_trip(self.port, endianness, self.address@ + rest);
        let back = Locator_t::from_wire(wire, endianness);
        assert(back.address =~= self.address);
    }

    /// The address bytes travel in their order, whatever the endianness.
    pub proof fn lemma_address_endianness_invariant(self)
        ensures
            self.wire_bytes(Endianness::LittleEndian).skip(8) == self.address@,
            self.wire_bytes(Endianness::BigEndian).skip(8) == self.address@,
    {
        lemma_i32_round_trip(self.kind.value, Endianness::LittleEndian, Seq::empty());
        lemma_u32_round_trip(self.port, Endianness::LittleEndian, Seq::empty());
        lemma_i32_round_trip(self.kind.value, Endianness::BigEndian, Seq::empty());
        lemma_u32_round_trip(self.port, Endianness::BigEndian, Seq::empty());
        assert(self.wire_bytes(Endianness::LittleEndian).skip(8) =~= self.address@);
        assert(self.wire_bytes(Endianness::BigEndian).skip(8) =~= self.address@);
    }
}

/// The bytes of `locators`, one locator after the other.
pub open spec fn locators_bytes(locators: Seq<Locator_t>, endianness: Endianness) -> Seq<u8>
    decreases locators.len(),
{
    if locators.len() == 0 {
        Seq::<u8>::empty()
    } else {
        locators_bytes(locators.drop_last(), endianness) + locators.last().wire_bytes(endianness)
    }
}

/// The wire form of a locator list: the number of locators as four bytes,
/// then the locators.
pub open spec fn locator_list_bytes(locators: Seq<Locator_t>, endianness: Endianness) -> Seq<u8> {
    u32_bytes(locators.len() as u32, endianness) + locators_bytes(locators, endianness)
}

/// The number of locators that the list at the front of `bytes` announces.
pub open spec fn locator_list_count(bytes: Seq<u8>, endianness: Endianness) -> nat {
    u32_from_bytes(bytes, endianness) as nat
}

/// The number of bytes that the locator list at the front of `bytes` takes.
pub open spec fn locator_list_wire_len(bytes: Seq<u8>, endianness: Endianness) -> nat {
    4 + LOCATOR_SIZE as nat * locator_list_count(bytes, endianness)
}

/// Whether a whole locator list stands at the front of `bytes`.
pub open spec fn locator_list_fits(bytes: Seq<u8>, endianness: Endianness) -> bool {
    bytes.len() >= 4 && bytes.len() >= locator_list_wire_len(bytes, endianness)
}

/// The locators of the list at the front of `bytes`.
pub open spec fn locator_list_from_wire(bytes: Seq<u8>, endianness: Endianness) -> Seq<
    Locator_t,
> {
    Seq::new(
        locator_list_count(bytes, endianness),
        |i: int| Locator_t::from_wire(bytes.skip(4 + LOCATOR_SIZE as int * i), endianness),
    )
}

/// Reads the locator list at the front of `bytes`, and says how many bytes
/// it takes.
pub fn read_locator_list(bytes: &[u8], endianness: Endianness) -> (r: Result<
    (LocatorList_t, usize),
    CodecError,
>)
    ensures
        match r {
            Ok((list, used)) => {
                &&& locator_list_fits(bytes@, endianness)
                &&& list@ == locator_list_from_wire(bytes@, endianness)
                &&& used == locator_list_wire_len(bytes@, endianness)
            },
            Err(e) => !locator_list_fits(bytes@, endianness) && e == CodecError::InputTooShort,
        },
{
    if bytes.len() < 4 {
        return Err(CodecError::InputTooShort);
    }
    assert(bytes@.skip(0) =~= bytes@);
    let count = read_u32(bytes, 0, endianness);
    if (bytes.len() - 4) / LOCATOR_SIZE < count as usize {
        return Err(CodecError::InputTooShort);
    }
    let mut list: Vec<Locator_t> = Vec::new();
    let mut i: usize = 0;
    while i < count as usize
        invariant
            i <= count,
            count == locator_list_count(bytes@, endianness),
            4 + LOCATOR_SIZE * count <= bytes@.len() <= usize::MAX,
            list@.len() == i,
            forall|k: int|
                0 <= k < i ==> list@[k] == Locator_t::from_wire(
                    bytes@.skip(4 + LOCATOR_SIZE as int * k),
                    endianness,
                ),
        decreases count - i,
    {
        assert(LOCATOR_SIZE * i <= LOCATOR_SIZE * count) by (nonlinear_arith)
            requires
                i <= count,
        ;
        let at: usize = 4 + LOCATOR_SIZE * i;
        let item = slice_subrange(bytes, at, bytes.len());
        match Locator_t::read_from(item, endianness) {
            Ok(locator) => {
                list.push(locator);
            },
            Err(e) => {
                return Err(e);
            },
        }
        i += 1;
    }
    assert(list@ =~= locator_list_from_wire(bytes@, endianness));
    Ok((list, 4 + LOCATOR_SIZE * count as usize))
}

/// Appends the wire form of `list` to `out`.
pub fn write_locator_list(list: &Vec<Locator_t>, endianness: Endianness, out: &mut Vec<u8>)
    requires
        list@.len() <= u32::MAX,
    ensures
        final(out)@ == old(out)@ + locator_list_bytes(list@, endianness),
{
    write_u32(list.len() as u32, endianness, out);
    let mut i: usize = 0;
    while i < list.len()
        invariant
            i <= list@.len(),
            out@ == old(out)@ + u32_bytes(list@.len() as u32, endianness) + locators_bytes(
                list@.subrange(0, i as int),
                endianness,
            ),
        decreases list@.len() - i,
    {
        list[i].write_to(endianness, out);
        i += 1;
        proof {
            let done = list@.subrange(0, i as int);
            assert(done.drop_last() =~= list@.subrange(0, i - 1));
            assert(out@ =~= old(out)@ + u32_bytes(list@.len() as u32, endianness)
                + locators_bytes(done, endianness));
        }
    }
    assert(list@.subrange(0, i as int) =~= list@);
    assert(out@ =~= old(out)@ + locator_list_bytes(list@, endianness));
}

/// Every locator takes `LOCATOR_SIZE` bytes.
pub proof fn lemma_locators_bytes_len(locators: Seq<Locator_t>, endianness: Endianness)
    ensures
        locators_bytes(locators, endianness).len() == LOCATOR_SIZE * locators.len(),
    decreases locators.len(),
{
    if locators.len() > 0 {
        lemma_locators_bytes_len(locators.drop_last(), endianness);
        locators.last().lemma_round_trip(endianness, Seq::empty());
    }
}

/// The bytes of locator `i` stand at offset `LOCATOR_SIZE * i` of the bytes
/// of `locators`.
pub proof fn lemma_locators_bytes_at(locators: Seq<Locator_t>, endianness: Endianness, i: int)
    requires
        0 <= i < locators.len(),
    ensures
        locators_bytes(locators, endianness).subrange(
            LOCATOR_SIZE as int * i,
            LOCATOR_SIZE as int * i + LOCATOR_SIZE as int,
        ) == locators[i].wire_bytes(endianness),
    decreases locators.len(),
{
    let front = locators.drop_last();
    lemma_locators_bytes_len(locators, endianness);
    lemma_locators_bytes_len(front, endianness);
    let all = locators_bytes(locators, endianness);
    let from = LOCATOR_SIZE as int * i;
    if i == locators.len() - 1 {
        assert(all.subrange(from, from + LOCATOR_SIZE as int) =~= locators[i].wire_bytes(
            endianness,
        ));
    } else {
        lemma_locators_bytes_at(front, endianness, i);
        assert(all.subrange(from, from + LOCATOR_SIZE as int) =~= locators_bytes(
            front,
            endianness,
        ).subrange(from, from + LOCATOR_SIZE as int));
    }
}

/// A locator list that is written and read back is unchanged.
pub proof fn lemma_locator_list_round_trip(
    locators: Seq<Locator_t>,
    endianness: Endianness,
    rest: Seq<u8>,
)
    requires
        locators.len() <= u32::MAX,
    ensures
        locator_list_fits(locator_list_bytes(locators, endianness) + rest, endianness),
        locator_list_from_wire(locator_list_bytes(locators, endianness) + rest, endianness)
            == locators,
        locator_list_wire_len(locator_list_bytes(locators, endianness) + rest, endianness)
            == locator_list_bytes(locators, endianness).len(),
{
    let body = locators_bytes(locators, endianness);
    let wire = locator_list_bytes(locators, endianness) + rest;
    lemma_locators_bytes_len(locators, endianness);
    lemma_u32_round_trip(locators.len() as u32, endianness, body + rest);
    assert(wire =~= u32_bytes(locators.len() as u32, endianness) + (body + rest));
    let back = locator_list_from_wire(wire, endianness);
    assert forall|i: int| 0 <= i < locators.len() implies back[i] == locators[i] by {
        lemma_locators_bytes_at(locators, endianness, i);
        let from = 4 + LOCATOR_SIZE as int * i;
        let tail = wire.skip(from);
        let after = wire.skip(from + LOCATOR_SIZE as int);
        assert(tail.subrange(0, LOCATOR_SIZE as int) =~= body.subrange(
            LOCATOR_SIZE as int * i,
            LOCATOR_SIZE as int * i + LOCATOR_SIZE as int,
        ));
        assert(tail =~= tail.subrange(0, LOCATOR_SIZE as int) + after);
        locators[i].lemma_round_trip(endianness, after);
    }
    assert(back =~= locators);
}

} // verus!
