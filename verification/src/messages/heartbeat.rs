use crate::common::endianness::Endianness;
use crate::common::error::CodecError;
use crate::structure::count::Count_t;
use crate::structure::entity_id::EntityId_t;
use crate::structure::sequence_number::SequenceNumber_t;
use vstd::prelude::*;
use vstd::slice::slice_subrange;

verus! {

/// A writer tells a reader which changes it has: those from `first_sn` to
/// `last_sn`.
#[derive(Copy, Clone, Debug, PartialEq, Eq)]
pub struct Heartbeat {
    /// The reader that is told, or the unknown entity for all readers.
    pub reader_id: EntityId_t,
    /// The writer that the changes belong to.
    pub writer_id: EntityId_t,
    /// The first change that the writer has.
    pub first_sn: SequenceNumber_t,
    /// The last change that the writer has.
    pub last_sn: SequenceNumber_t,
    /// Counts the heartbeats of the writer, so that a reader knows a
    /// repeated one.
    pub count: Count_t,
}

/// The bytes that a heartbeat takes on the wire.
pub const HEARTBEAT_SIZE: usize = 28;

impl Heartbeat {
    /// The wire form: the fields in their order.
    pub open spec fn wire_bytes(&self, endianness: Endianness) -> Seq<u8> {
        self.reader_id.wire_bytes(endianness) + self.writer_id.wire_bytes(endianness)
            + self.first_sn.wire_bytes(endianness) + self.last_sn.wire_bytes(endianness)
            + self.count.wire_bytes(endianness)
    }

    /// The heartbeat that stands at the front of `bytes`.
    pub open spec fn from_wire(bytes: Seq<u8>, endianness: Endianness) -> Heartbeat {
        Heartbeat {
            reader_id: EntityId_t::from_wire(bytes, endianness),
            writer_id: EntityId_t::from_wire(bytes.skip(4), endianness),
            first_sn: SequenceNumber_t::from_wire(bytes.skip(8), endianness),
            last_sn: SequenceNumber_t::from_wire(bytes.skip(16), endianness),
            count: Count_t::from_wire(bytes.skip(24), endianness),
        }
    }

    /// The number of bytes that the wire form takes.
    pub fn minimum_bytes_needed() -> (n: usize)
        ensures
            n == HEARTBEAT_SIZE,
    {
        HEARTBEAT_SIZE
    }

    /// Reads the heartbeat at the front of `bytes`.
    pub fn read_from(bytes: &[u8], endianness: Endianness) -> (r: Result<Heartbeat, CodecError>)
        ensures
            r == if bytes@.len() >= HEARTBEAT_SIZE {
                Ok::<Heartbeat, CodecError>(Heartbeat::from_wire(bytes@, endianness))
            } else {
                Err(CodecError::InputTooShort)
            },
    {
        if bytes.len() < HEARTBEAT_SIZE {
            return Err(CodecError::InputTooShort);
        }
        let end = bytes.len();
        let reader_id = EntityId_t::read_from(bytes, endianness)?;
        let writer_id = EntityId_t::read_from(slice_subrange(bytes, 4, end), endianness)?;
        let first_sn = SequenceNumber_t::read_from(slice_subrange(bytes, 8, end), endianness)?;
        let last_sn = SequenceNumber_t::read_from(slice_subrange(bytes, 16, end), endianness)?;
        let count = Count_t::read_from(slice_subrange(bytes, 24, end), endianness)?;
        Ok(Heartbeat { reader_id, writer_id, first_sn, last_sn, count })
    }

    /// Appends the wire form to `out`.
    pub fn write_to(&self, endianness: Endianness, out: &mut Vec<u8>)
        ensures
            final(out)@ == old(out)@ + self.wire_bytes(endianness),
    {
        self.reader_id.write_to(endianness, out);
        self.writer_id.write_to(endianness, out);
        self.first_sn.write_to(endianness, out);
        self.last_sn.write_to(endianness, out);
        self.count.write_to(endianness, out);
        assert(out@ =~= old(out)@ + self.wire_bytes(endianness));
    }

    /// A heartbeat that is written and read back is unchanged.
    pub proof fn lemma_round_trip(self, endianness: Endianness, rest: Seq<u8>)
        ensures
            self.wire_bytes(endianness).len() == HEARTBEAT_SIZE,
            Heartbeat::from_wire(self.wire_bytes(endianness) + rest, endianness) == self,
    {
        let wire = self.wire_bytes(endianness) + rest;
        let r4 = self.count.wire_bytes(endianness) + rest;
        let r3 = self.last_sn.wire_bytes(endianness) + r4;
        let r2 = self.first_sn.wire_bytes(endianness) + r3;
        let r1 = self.writer_id.wire_bytes(endianness) + r2;
        self.reader_id.lemma_round_trip(endianness, r1);
        self.writer_id.lemma_round_trip(endianness, r2);
        self.first_sn.lemma_round_trip(endianness, r3);
        self.last_sn.lemma_round_trip(endianness, r4);
        self.count.lemma_round_trip(endianness, rest);
        assert(wire =~= self.reader_id.wire_bytes(endianness) + r1);
        assert(wire.skip(4) =~= r1);
        assert(wire.skip(8) =~= r2);
        assert(wire.skip(16) =~= r3);
        assert(wire.skip(24) =~= r4);
    }
}

} // verus!
