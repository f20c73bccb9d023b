use crate::common::endianness::Endianness;
use crate::common::error::CodecError;
use crate::messages::fragment_number::FragmentNumber_t;
use crate::structure::count::Count_t;
use crate::structure::entity_id::EntityId_t;
use crate::structure::sequence_number::SequenceNumber_t;
use vstd::prelude::*;
use vstd::slice::slice_subrange;

verus! {

/// A writer tells a reader which fragments of a change it has: those up to
/// `last_fragment_num`.
#[derive(Copy, Clone, Debug, PartialEq, Eq)]
pub struct HeartbeatFrag {
    /// The reader that is told, or the unknown entity for all readers.
    pub reader_id: EntityId_t,
    /// The writer that the fragments belong to.
    pub writer_id: EntityId_t,
    /// The change that the fragments belong to.
    pub writer_sn: SequenceNumber_t,
    /// The last fragment that the writer has.
    pub last_fragment_num: FragmentNumber_t,
    /// Counts the messages of this kind that the writer sends.
    pub count: Count_t,
}

/// The bytes that a `HeartbeatFrag` takes on the wire.
pub const HEARTBEAT_FRAG_SIZE: usize = 24;

impl HeartbeatFrag {
    /// The wire form: the fields in their order.
    pub open spec fn wire_bytes(&self, endianness: Endianness) -> Seq<u8> {
        self.reader_id.wire_bytes(endianness) + self.writer_id.wire_bytes(endianness)
            + self.writer_sn.wire_bytes(endianness) + self.last_fragment_num.wire_bytes(
            endianness,
        ) + self.count.wire_bytes(endianness)
    }

    /// The `HeartbeatFrag` that stands at the front of `bytes`.
    pub open spec fn from_wire(bytes: Seq<u8>, endianness: Endianness) -> HeartbeatFrag {
        HeartbeatFrag {
            reader_id: EntityId_t::from_wire(bytes, endianness),
            writer_id: EntityId_t::from_wire(bytes.skip(4), endianness),
            writer_sn: SequenceNumber_t::from_wire(bytes.skip(8), endianness),
            last_fragment_num: FragmentNumber_t::from_wire(bytes.skip(16), endianness),
            count: Count_t::from_wire(bytes.skip(20), endianness),
        }
    }

    /// The number of bytes that the wire form takes.
    pub fn minimum_bytes_needed() -> (n: usize)
        ensures
            n == HEARTBEAT_FRAG_SIZE,
    {
        HEARTBEAT_FRAG_SIZE
    }

    /// Reads the `HeartbeatFrag` at the front of `bytes`.
    pub fn read_from(bytes: &[u8], endianness: Endianness) -> (r: Result<
        HeartbeatFrag,
        CodecError,
    >)
        ensures
            r == if bytes@.len() >= HEARTBEAT_FRAG_SIZE {
                Ok::<HeartbeatFrag, CodecError>(HeartbeatFrag::from_wire(bytes@, endianness))
            } else {
                Err(CodecError::InputTooShort)
            },
    {
        if bytes.len() < HEARTBEAT_FRAG_SIZE {
            return Err(CodecError::InputTooShort);
        }
        let end = bytes.len();
        let reader_id = EntityId_t::read_from(bytes, endianness)?;
        let writer_id = EntityId_t::read_from(slice_subrange(bytes, 4, end), endianness)?;
        let writer_sn = SequenceNumber_t::read_from(slice_subrange(bytes, 8, end), endianness)?;
        let last_fragment_num = FragmentNumber_t::read_from(
            slice_subrange(bytes, 16, end),
            endianness,
        )?;
        let count = Count_t::read_from(slice_subrange(bytes, 20, end), endianness)?;
        Ok(HeartbeatFrag { reader_id, writer_id, writer_sn, last_fragment_num, count })
    }

    /// Appends the wire form to `out`.
    pub fn write_to(&self, endianness: Endianness, out: &mut Vec<u8>)
        ensures
            final(out)@ == old(out)@ + self.wire_bytes(endianness),
    {
        self.reader_id.write_to(endianness, out);
        self.writer_id.write_to(endianness, out);
        self.writer_sn.write_to(endianness, out);
        self.last_fragment_num.write_to(endianness, out);
        self.count.write_to(endianness, out);
        assert(out@ =~= old(out)@ + self.wire_bytes(endianness));
    }

    /// A `HeartbeatFrag` that is written and read back is unchanged.
    pub proof fn lemma_round_trip(self, endianness: Endianness, rest: Seq<u8>)
        ensures
            self.wire_bytes(endianness).len() == HEARTBEAT_FRAG_SIZE,
            HeartbeatFrag::from_wire(self.wire_bytes(endianness) + rest, endianness) == self,
    {
        let wire = self.wire_bytes(endianness) + rest;
        let r4 = self.count.wire_bytes(endianness) + rest;
        let r3 = self.last_fragment_num.wire_bytes(endianness) + r4;
        let r2 = self.writer_sn.wire_bytes(endianness) + r3;
        let r1 = self.writer_id.wire_bytes(endianness) + r2;
        self.reader_id.lemma_round_trip(endianness, r1);
        self.writer_id.lemma_round_trip(endianness, r2);
        self.writer_sn.lemma_round_trip(endianness, r3);
        self.last_fragment_num.lemma_round_trip(endianness, r4);
        self.count.lemma_round_trip(endianness, rest);
        assert(wire =~= self.reader_id.wire_bytes(endianness) + r1);
        assert(wire.skip(4) =~= r1);
        assert(wire.skip(8) =~= r2);
        assert(wire.skip(16) =~= r3);
        assert(wire.skip(20) =~= r4);
    }
}

} // verus!
