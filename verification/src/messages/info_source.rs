use crate::common::endianness::Endianness;
use crate::common::error::CodecError;
use crate::messages::protocol_version::ProtocolVersion_t;
use crate::messages::vendor_id::VendorId_t;
use crate::structure::guid_prefix::GuidPrefix_t;
use vstd::prelude::*;
use vstd::slice::slice_subrange;

verus! {

/// Says who sent the submessages that follow, where that is not the sender
/// of the message.
#[derive(Copy, Clone, Debug, PartialEq, Eq)]
pub struct InfoSource {
    /// The protocol version of the submessages that follow.
    pub protocol_version: ProtocolVersion_t,
    /// The vendor of the implementation that wrote them.
    pub vendor_id: VendorId_t,
    /// The prefix of the participant that wrote them.
    pub guid_prefix: GuidPrefix_t,
}

/// The bytes that an `InfoSource` takes on the wire.
pub const INFO_SOURCE_SIZE: usize = 16;

impl InfoSource {
    /// The wire form: the fields in their order; none of them depends on the
    /// endianness.
    pub open spec fn wire_bytes(&self, endianness: Endianness) -> Seq<u8> {
        self.protocol_version.wire_bytes(endianness) + self.vendor_id.wire_bytes(endianness)
            + self.guid_prefix.wire_bytes(endianness)
    }

    /// The `InfoSource` that stands at the front of `bytes`.
    pub open spec fn from_wire(bytes: Seq<u8>, endianness: Endianness) -> InfoSource {
        InfoSource {
            protocol_version: ProtocolVersion_t::from_wire(bytes, endianness),
            vendor_id: VendorId_t::from_wire(bytes.skip(2), endianness),
            guid_prefix: GuidPrefix_t::from_wire(bytes.skip(4), endianness),
        }
    }

    /// The number of bytes that the wire form takes.
    pub fn minimum_bytes_needed() -> (n: usize)
        ensures
            n == INFO_SOURCE_SIZE,
    {
        INFO_SOURCE_SIZE
    }

    /// Reads the `InfoSource` at the front of `bytes`.
    pub fn read_from(bytes: &[u8], endianness: Endianness) -> (r: Result<InfoSource, CodecError>)
        ensures
            r == if bytes@.len() >= INFO_SOURCE_SIZE {
                Ok::<InfoSource, CodecError>(InfoSource::from_wire(bytes@, endianness))
            } else {
                Err(CodecError::InputTooShort)
            },
    {
        if bytes.len() < INFO_SOURCE_SIZE {
            return Err(CodecError::InputTooShort);
        }
        let end = bytes.len();
        let protocol_version = ProtocolVersion_t::read_from(bytes, endianness)?;
        let vendor_id = VendorId_t::read_from(slice_subrange(bytes, 2, end), endianness)?;
        let guid_prefix = GuidPrefix_t::read_from(slice_subrange(bytes, 4, end), endianness)?;
        Ok(InfoSource { protocol_version, vendor_id, guid_prefix })
    }

    /// Appends the wire form to `out`.
    pub fn write_to(&self, endianness: Endianness, out: &mut Vec<u8>)
        ensures
            final(out)@ == old(out)@ + self.wire_bytes(endianness),
    {
        self.protocol_version.write_to(endianness, out);
        self.vendor_id.write_to(endianness, out);
        self.guid_prefix.write_to(endianness, out);
        assert(out@ =~= old(out)@ + self.wire_bytes(endianness));
    }

    /// An `InfoSource` that is written and read back is unchanged.
    pub proof fn lemma_round_trip(self, endianness: Endianness, rest: Seq<u8>)
        ensures
            self.wire_bytes(endianness).len() == INFO_SOURCE_SIZE,
            InfoSource::from_wire(self.wire_bytes(endianness) + rest, endianness) == self,
    {
        let wire = self.wire_bytes(endianness) + rest;
        let r2 = self.guid_prefix.wire_bytes(endianness) + rest;
        let r1 = self.vendor_id.wire_bytes(endianness) + r2;
        self.protocol_version.lemma_round_trip(endianness, r1);
        self.vendor_id.lemma_round_trip(endianness, r2);
        self.guid_prefix.lemma_round_trip(endianness, rest);
        assert(wire =~= self.protocol_version.wire_bytes(endianness) + r1);
        assert(wire.skip(2) =~= r1);
        assert(wire.skip(4) =~= r2);
    }
}

} // verus!
