use crate::common::endianness::{lemma_skip_run, Endianness};
use crate::common::error::CodecError;
use crate::structure::count::Count_t;
use crate::structure::entity_id::EntityId_t;
use crate::structure::sequence_number_set::{SequenceNumberSetView, SequenceNumberSet_t};
use vstd::prelude::*;
use vstd::slice::slice_subrange;

verus! {

/// A reader tells a writer which changes it has and which it misses.
#[derive(Debug, PartialEq)]
pub struct AckNack {
    /// The reader that tells.
    pub reader_id: EntityId_t,
    /// The writer that is told.
    pub writer_id: EntityId_t,
    /// The reader has every change before the base of this set, and misses
    /// the changes in the set.
    pub reader_sn_state: SequenceNumberSet_t,
    /// Counts the messages of this kind that the reader sends.
    pub count: Count_t,
}

/// What an `AckNack` stands for.
pub struct AckNackView {
    pub reader_id: EntityId_t,
    pub writer_id: EntityId_t,
    pub reader_sn_state: SequenceNumberSetView,
    pub count: Count_t,
}

impl View for AckNack {
    type V = AckNackView;

    open spec fn view(&self) -> AckNackView {
        AckNackView {
            reader_id: self.reader_id,
            writer_id: self.writer_id,
            reader_sn_state: self.reader_sn_state@,
            count: self.count,
        }
    }
}

impl AckNackView {
    /// The wire form: the fields in their order.
    pub open spec fn wire_bytes(&self, endianness: Endianness) -> Seq<u8> {
        self.reader_id.wire_bytes(endianness) + self.writer_id.wire_bytes(endianness)
            + self.reader_sn_state.wire_bytes(endianness) + self.count.wire_bytes(endianness)
    }

    /// The offset of the count in the `AckNack` at the front of `bytes`.
    pub open spec fn count_offset(bytes: Seq<u8>, endianness: Endianness) -> nat {
        8 + SequenceNumberSetView::wire_len(bytes.skip(8), endianness)
    }

    /// Why the front of `bytes` is no `AckNack`, if it is none.
    pub open spec fn wire_error(bytes: Seq<u8>, endianness: Endianness) -> Option<CodecError> {
        if bytes.len() < 8 {
            Some(CodecError::InputTooShort)
        } else if SequenceNumberSetView::wire_error(bytes.skip(8), endianness).is_some() {
            SequenceNumberSetView::wire_error(bytes.skip(8), endianness)
        } else if bytes.len() < Self::count_offset(bytes, endianness) + 4 {
            Some(CodecError::InputTooShort)
        } else {
            None
        }
    }

    /// What the first bytes of an `AckNack`, up to the number of bits of its
    /// bitmap, say of its length in bytes: the length, or why there is none
    /// to be had.
    pub open spec fn framed_len(head: Seq<u8>, endianness: Endianness) -> Result<
        usize,
        CodecError,
    > {
        if head.len() < 20 {
            Err(CodecError::InputTooShort)
        } else {
            match SequenceNumberSetView::framed_len(head.skip(8), endianness) {
                Ok(len) => Ok((8 + len + 4) as usize),
                Err(e) => Err(e),
            }
        }
    }

    /// The `AckNack` that stands at the front of `bytes`.
    pub open spec fn from_wire(bytes: Seq<u8>, endianness: Endianness) -> AckNackView {
        AckNackView {
            reader_id: EntityId_t::from_wire(bytes, endianness),
            writer_id: EntityId_t::from_wire(bytes.skip(4), endianness),
            reader_sn_state: SequenceNumberSetView::from_wire(bytes.skip(8), endianness),
            count: Count_t::from_wire(
                bytes.skip(Self::count_offset(bytes, endianness) as int),
                endianness,
            ),
        }
    }

    /// An `AckNack` stands at the front of `bytes` exactly if its first bytes
    /// give a length and `bytes` is as long.
    pub proof fn lemma_framed_len(bytes: Seq<u8>, endianness: Endianness)
        ensures
            Self::wire_error(bytes, endianness).is_none() <==> (Self::framed_len(
                bytes,
                endianness,
            ) matches Ok(n) && bytes.len() >= n),
    {
        if bytes.len() >= 8 {
            SequenceNumberSetView::lemma_framed_len(bytes.skip(8), endianness);
        }
    }

    /// An `AckNack` that is written and read back has the same fields; the
    /// set holds the same numbers over the same base.
    pub proof fn lemma_round_trip(self, endianness: Endianness, rest: Seq<u8>)
        requires
            self.reader_sn_state.well_formed(),
        ensures
            Self::wire_error(self.wire_bytes(endianness) + rest, endianness).is_none(),
            Self::from_wire(self.wire_bytes(endianness) + rest, endianness).reader_id
                == self.reader_id,
            Self::from_wire(self.wire_bytes(endianness) + rest, endianness).writer_id
                == self.writer_id,
            Self::from_wire(self.wire_bytes(endianness) + rest, endianness).reader_sn_state.base
                == self.reader_sn_state.base,
            Self::from_wire(self.wire_bytes(endianness) + rest, endianness).reader_sn_state.offsets
                == self.reader_sn_state.offsets,
            Self::from_wire(self.wire_bytes(endianness) + rest, endianness).count == self.count,
    {
        let wire = self.wire_bytes(endianness) + rest;
        let a0 = self.reader_id.wire_bytes(endianness);
        let a1 = self.writer_id.wire_bytes(endianness);
        let a2 = self.reader_sn_state.wire_bytes(endianness);
        let a3 = self.count.wire_bytes(endianness);
        let r3 = a3 + rest;
        let r2 = a2 + r3;
        let r1 = a1 + r2;
        assert(wire.skip(0) == a0 + r1) by {
            assert(wire =~= a0 + r1);
            assert(wire.skip(0) =~= wire);
        }
        self.reader_id.lemma_round_trip(endianness, r1);
        lemma_skip_run(wire, 0, a0, r1);
        self.writer_id.lemma_round_trip(endianness, r2);
        lemma_skip_run(wire, 4, a1, r2);
        self.reader_sn_state.lemma_round_trip(endianness, r3);
        lemma_skip_run(wire, 8, a2, r3);
        self.count.lemma_round_trip(endianness, rest);
    }
}

impl AckNack {
    /// Reads the `AckNack` at the front of `bytes`.
    pub fn read_from(bytes: &[u8], endianness: Endianness) -> (r: Result<AckNack, CodecError>)
        ensures
            match r {
                Ok(ack_nack) => {
                    &&& AckNackView::wire_error(bytes@, endianness).is_none()
                    &&& ack_nack@ == AckNackView::from_wire(bytes@, endianness)
                    &&& ack_nack@.reader_sn_state.well_formed()
                },
                Err(e) => AckNackView::wire_error(bytes@, endianness) == Some(e),
            },
    {
        if bytes.len() < 8 {
            return Err(CodecError::InputTooShort);
        }
        let end = bytes.len();
        let reader_id = EntityId_t::read_from(bytes, endianness)?;
        let writer_id = EntityId_t::read_from(slice_subrange(bytes, 4, end), endianness)?;
        let (reader_sn_state, used) = SequenceNumberSet_t::read_from(
            slice_subrange(bytes, 8, end),
            endianness,
        )?;
        let count = Count_t::read_from(slice_subrange(bytes, 8 + used, end), endianness)?;
        Ok(AckNack { reader_id, writer_id, reader_sn_state, count })
    }

    /// The smallest number of bytes that an `AckNack` takes: those of one with
    /// an empty bitmap.
    pub fn minimum_bytes_needed() -> (n: usize)
        ensures
            n == 24,
    {
        24
    }

    /// The number of bytes that the `AckNack` takes whose first bytes are
    /// `head`. It is told from the first 20 bytes alone.
    pub fn framed_len(head: &[u8], endianness: Endianness) -> (r: Result<usize, CodecError>)
        ensures
            r == AckNackView::framed_len(head@, endianness),
    {
        if head.len() < 20 {
            return Err(CodecError::InputTooShort);
        }
        let reader_sn_state = slice_subrange(head, 8, head.len());
        let len = SequenceNumberSet_t::framed_len(reader_sn_state, endianness)?;
        Ok(8 + len + 4)
    }

    /// Appends the wire form to `out`.
    pub fn write_to(&self, endianness: Endianness, out: &mut Vec<u8>)
        ensures
            final(out)@ == old(out)@ + self@.wire_bytes(endianness),
    {
        self.reader_id.write_to(endianness, out);
        self.writer_id.write_to(endianness, out);
        self.reader_sn_state.write_to(endianness, out);
        self.count.write_to(endianness, out);
        assert(out@ =~= old(out)@ + self@.wire_bytes(endianness));
    }
}

} // verus!
