use crate::common::endianness::{write_bytes, Endianness};
use crate::common::error::CodecError;
use crate::common::validity_trait::Validity;
use crate::messages::protocol_version::ProtocolVersion_t;
use crate::messages::vendor_id::VendorId_t;
use crate::structure::guid_prefix::GuidPrefix_t;
use vstd::prelude::*;
use vstd::slice::slice_subrange;

verus! {

/// The four bytes that open every message of the protocol.
#[derive(Copy, Clone, Debug, PartialEq, Eq)]
pub struct ProtocolId_t {
    pub protocol_id: [u8; 4],
}

impl ProtocolId_t {
    /// The protocol's magic: the letters R, T, P, S.
    #[verifier::allow_in_spec]
    pub fn PROTOCOL_RTPS() -> ProtocolId_t
        returns
            (ProtocolId_t { protocol_id: [0x52u8, 0x54, 0x50, 0x53] }),
    {
        ProtocolId_t { protocol_id: [0x52u8, 0x54, 0x50, 0x53] }
    }

    /// Whether this is the protocol's magic.
    pub fn is_rtps(&self) -> (rtps: bool)
        ensures
            rtps == (*self == ProtocolId_t::PROTOCOL_RTPS()),
    {
        let rtps = self.protocol_id[0] == 0x52 && self.protocol_id[1] == 0x54
            && self.protocol_id[2] == 0x50 && self.protocol_id[3] == 0x53;
        assert(rtps ==> self.protocol_id =~= ProtocolId_t::PROTOCOL_RTPS().protocol_id);
        rtps
    }
}

/// The twenty bytes that open a message: the magic, the protocol version,
/// the vendor and the prefix of the sender.
#[derive(Copy, Clone, Debug, PartialEq, Eq)]
pub struct Header {
    pub protocol_id: ProtocolId_t,
    pub protocol_version: ProtocolVersion_t,
    pub vendor_id: VendorId_t,
    pub guid_prefix: GuidPrefix_t,
}

/// The bytes that a message header takes on the wire.
pub const HEADER_SIZE: usize = 20;

impl Header {
    /// The header of a message that this implementation sends for the
    /// participant with the prefix `guid_prefix`.
    pub fn new(guid_prefix: GuidPrefix_t) -> (header: Header)
        ensures
            header == (Header {
                protocol_id: ProtocolId_t::PROTOCOL_RTPS(),
                protocol_version: ProtocolVersion_t::PROTOCOLVERSION(),
                vendor_id: VendorId_t::VENDOR_UNKNOWN(),
                guid_prefix,
            }),
            header.is_valid(),
    {
        Header {
            protocol_id: ProtocolId_t::PROTOCOL_RTPS(),
            protocol_version: ProtocolVersion_t::PROTOCOLVERSION(),
            vendor_id: VendorId_t::VENDOR_UNKNOWN(),
            guid_prefix,
        }
    }

    /// The wire form: the magic, the version, the vendor, the prefix; none of
    /// them depends on an endianness.
    pub open spec fn wire_bytes(&self) -> Seq<u8> {
        self.protocol_id.protocol_id@ + seq![
            self.protocol_version.major,
            self.protocol_version.minor,
        ] + self.vendor_id.vendor_id@ + self.guid_prefix.entity_key@
    }

    /// The header that stands at the front of `bytes`.
    pub open spec fn from_wire(bytes: Seq<u8>) -> Header {
        Header {
            protocol_id: ProtocolId_t { protocol_id: [bytes[0], bytes[1], bytes[2], bytes[3]] },
            protocol_version: ProtocolVersion_t::from_wire(
                bytes.skip(4),
                Endianness::BigEndian,
            ),
            vendor_id: VendorId_t::from_wire(bytes.skip(6), Endianness::BigEndian),
            guid_prefix: GuidPrefix_t::from_wire(bytes.skip(8), Endianness::BigEndian),
        }
    }

    /// The number of bytes that the wire form takes.
    pub fn minimum_bytes_needed() -> (n: usize)
        ensures
            n == HEADER_SIZE,
    {
        HEADER_SIZE
    }

    /// Reads the header at the front of `bytes`. Whether the header is valid
    /// is another question: see `valid`.
    pub fn read_from(bytes: &[u8]) -> (r: Result<Header, CodecError>)
        ensures
            r == if bytes@.len() >= HEADER_SIZE {
                Ok::<Header, CodecError>(Header::from_wire(bytes@))
            } else {
                Err(CodecError::InputTooShort)
            },
    {
        if bytes.len() < HEADER_SIZE {
            return Err(CodecError::InputTooShort);
        }
        let protocol_id = ProtocolId_t { protocol_id: [bytes[0], bytes[1], bytes[2], bytes[3]] };
        assert(protocol_id.protocol_id =~= Header::from_wire(bytes@).protocol_id.protocol_id);
        let protocol_version = ProtocolVersion_t::read_from(
            slice_subrange(bytes, 4, bytes.len()),
            Endianness::BigEndian,
        )?;
        let vendor_id = VendorId_t::read_from(
            slice_subrange(bytes, 6, bytes.len()),
            Endianness::BigEndian,
        )?;
        let guid_prefix = GuidPrefix_t::read_from(
            slice_subrange(bytes, 8, bytes.len()),
            Endianness::BigEndian,
        )?;
        Ok(Header { protocol_id, protocol_version, vendor_id, guid_prefix })
    }

    /// Appends the wire form to `out`.
    pub fn write_to(&self, out: &mut Vec<u8>)
        ensures
            final(out)@ == old(out)@ + self.wire_bytes(),
    {
        write_bytes(self.protocol_id.protocol_id.as_slice(), out);
        self.protocol_version.write_to(Endianness::BigEndian, out);
        self.vendor_id.write_to(Endianness::BigEndian, out);
        self.guid_prefix.write_to(Endianness::BigEndian, out);
        assert(out@ =~= old(out)@ + self.wire_bytes());
    }

    /// A header that is written and read back is unchanged.
    pub proof fn lemma_round_trip(self, rest: Seq<u8>)
        ensures
            self.wire_bytes().len() == HEADER_SIZE,
            Header::from_wire(self.wire_bytes() + rest) == self,
    {
        let wire = self.wire_bytes() + rest;
        let back = Header::from_wire(wire);
        assert(back.protocol_id.protocol_id =~= self.protocol_id.protocol_id);
        assert(back.vendor_id.vendor_id =~= self.vendor_id.vendor_id);
        assert(back.guid_prefix.entity_key =~= self.guid_prefix.entity_key);
    }
}

impl Validity for Header {
    /// A header is valid if it opens with the protocol's magic and names a
    /// protocol version that is 2.1 or later.
    open spec fn is_valid(&self) -> bool {
        self.protocol_id == ProtocolId_t::PROTOCOL_RTPS() && self.protocol_version.at_least(
            ProtocolVersion_t::PROTOCOLVERSION_2_1(),
        )
    }

    fn valid(&self) -> (ok: bool) {
        self.protocol_id.is_rtps() && self.protocol_version.is_at_least(
            ProtocolVersion_t::PROTOCOLVERSION_2_1(),
        )
    }
}

} // verus!
