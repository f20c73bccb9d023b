use crate::common::endianness::Endianness;
use crate::common::error::CodecError;
use crate::structure::guid_prefix::GuidPrefix_t;
use vstd::prelude::*;

verus! {

/// Says for which participant the submessages that follow are meant.
#[derive(Copy, Clone, Debug, PartialEq, Eq)]
pub struct InfoDestination {
    /// The prefix of the participant that the submessages are meant for.
    pub guid_prefix: GuidPrefix_t,
}

/// The bytes that an `InfoDestination` takes on the wire.
pub const INFO_DESTINATION_SIZE: usize = 12;

impl InfoDestination {
    /// The wire form: the prefix.
    pub open spec fn wire_bytes(&self, endianness: Endianness) -> Seq<u8> {
        self.guid_prefix.wire_bytes(endianness)
    }

    /// The `InfoDestination` that stands at the front of `bytes`.
    pub open spec fn from_wire(bytes: Seq<u8>, endianness: Endianness) -> InfoDestination {
        InfoDestination { guid_prefix: GuidPrefix_t::from_wire(bytes, endianness) }
    }

    /// The number of bytes that the wire form takes.
    pub fn minimum_bytes_needed() -> (n: usize)
        ensures
            n == INFO_DESTINATION_SIZE,
    {
        INFO_DESTINATION_SIZE
    }

    /// Reads the `InfoDestination` at the front of `bytes`.
    pub fn read_from(bytes: &[u8], endianness: Endianness) -> (r: Result<
        InfoDestination,
        CodecError,
    >)
        ensures
            r == if bytes@.len() >= INFO_DESTINATION_SIZE {
                Ok::<InfoDestination, CodecError>(InfoDestination::from_wire(bytes@, endianness))
            } else {
                Err(CodecError::InputTooShort)
            },
    {
        let guid_prefix = GuidPrefix_t::read_from(bytes, endianness)?;
        Ok(InfoDestination { guid_prefix })
    }

    /// Appends the wire form to `out`.
    pub fn write_to(&self, endianness: Endianness, out: &mut Vec<u8>)
        ensures
            final(out)@ == old(out)@ + self.wire_bytes(endianness),
    {
        self.guid_prefix.write_to(endianness, out);
    }

    /// An `InfoDestination` that is written and read back is unchanged.
    pub proof fn lemma_round_trip(self, endianness: Endianness, rest: Seq<u8>)
        ensures
            self.wire_bytes(endianness).len() == INFO_DESTINATION_SIZE,
            InfoDestination::from_wire(self.wire_bytes(endianness) + rest, endianness) == self,
    {
        self.guid_prefix.lemma_round_trip(endianness, rest);
    }
}

} // verus!
