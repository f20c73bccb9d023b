use crate::common::endianness::{
    lemma_u16_round_trip, read_u16, u16_bytes, u16_from_bytes, write_u16, Endianness,
};
use crate::common::error::CodecError;
use crate::messages::submessage_flag::SubmessageFlag;
use crate::messages::submessage_kind::SubmessageKind;
use vstd::prelude::*;

verus! {

/// The four bytes that open a submessage: its kind, its flags and the length
/// of its body.
#[derive(Copy, Clone, Debug, PartialEq, Eq, Structural)]
pub struct SubmessageHeader {
    pub submessage_id: SubmessageKind,
    pub flags: SubmessageFlag,
    pub submessage_length: u16,
}

impl SubmessageHeader {
    /// The wire form: the kind, the flags, and the length as two bytes in the
    /// endianness that the flags announce.
    pub open spec fn wire_bytes(&self) -> Seq<u8> {
        seq![self.submessage_id.value, self.flags.flags] + u16_bytes(
            self.submessage_length,
            self.flags.endianness(),
        )
    }

    /// The submessage header that stands at the front of `bytes`.
    pub open spec fn from_wire(bytes: Seq<u8>) -> SubmessageHeader {
        let flags = SubmessageFlag { flags: bytes[1] };
        SubmessageHeader {
            submessage_id: SubmessageKind { value: bytes[0] },
            flags,
            submessage_length: u16_from_bytes(bytes.skip(2), flags.endianness()),
        }
    }

    /// The number of bytes that the wire form takes.
    pub fn minimum_bytes_needed() -> (n: usize)
        ensures
            n == 4,
    {
        4
    }

    /// Reads the submessage header at the front of `bytes`.
    pub fn read_from(bytes: &[u8]) -> (r: Result<SubmessageHeader, CodecError>)
        ensures
            r == if bytes@.len() >= 4 {
                Ok::<SubmessageHeader, CodecError>(SubmessageHeader::from_wire(bytes@))
            } else {
                Err(CodecError::InputTooShort)
            },
    {
        if bytes.len() < 4 {
            return Err(CodecError::InputTooShort);
        }
        let flags = SubmessageFlag { flags: bytes[1] };
        let submessage_length = read_u16(bytes, 2, flags.endianness_flag());
        Ok(
            SubmessageHeader {
                submessage_id: SubmessageKind { value: bytes[0] },
                flags,
                submessage_length,
            },
        )
    }

    /// Appends the wire form to `out`.
    pub fn write_to(&self, out: &mut Vec<u8>)
        ensures
            final(out)@ == old(out)@ + self.wire_bytes(),
    {
        out.push(self.submessage_id.value);
        out.push(self.flags.flags);
        write_u16(self.submessage_length, self.flags.endianness_flag(), out);
        assert(out@ =~= old(out)@ + self.wire_bytes());
    }

    /// A submessage header that is written and read back is unchanged.
    pub proof fn lemma_round_trip(self, rest: Seq<u8>)
        ensures
            self.wire_bytes().len() == 4,
            SubmessageHeader::from_wire(self.wire_bytes() + rest) == self,
    {
        let wire = self.wire_bytes() + rest;
        let endianness = self.flags.endianness();
        assert(wire.skip(2) =~= u16_bytes(self.submessage_length, endianness) + rest);
        lemma_u16_round_trip(self.submessage_length, endianness, rest);
    }
}

} // verus!
