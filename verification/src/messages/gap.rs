use crate::common::endianness::Endianness;
use crate::common::error::CodecError;
use crate::structure::entity_id::EntityId_t;
use crate::structure::sequence_number::SequenceNumber_t;
use crate::structure::sequence_number_set::{SequenceNumberSetView, SequenceNumberSet_t};
use vstd::prelude::*;
use vstd::slice::slice_subrange;

verus! {

/// A writer tells a reader which changes are no longer to be had.
#[derive(Debug, PartialEq)]
pub struct Gap {
    /// The reader that is told.
    pub reader_id: EntityId_t,
    /// The writer that the changes belong to.
    pub writer_id: EntityId_t,
    /// The first change that is not to be had: so are all from it to the
    /// base of `gap_list`.
    pub gap_start: SequenceNumber_t,
    /// More changes that are not to be had.
    pub gap_list: SequenceNumberSet_t,
}

/// What a `Gap` stands for.
pub struct GapView {
    pub reader_id: EntityId_t,
    pub writer_id: EntityId_t,
    pub gap_start: SequenceNumber_t,
    pub gap_list: SequenceNumberSetView,
}

impl View for Gap {
    type V = GapView;

    open spec fn view(&self) -> GapView {
        GapView {
            reader_id: self.reader_id,
            writer_id: self.writer_id,
            gap_start: self.gap_start,
            gap_list: self.gap_list@,
        }
    }
}

impl GapView {
    /// The wire form: the fields in their order.
    pub open spec fn wire_bytes(&self, endianness: Endianness) -> Seq<u8> {
        self.reader_id.wire_bytes(endianness) + self.writer_id.wire_bytes(endianness)
            + self.gap_start.wire_bytes(endianness) + self.gap_list.wire_bytes(endianness)
    }

    /// Why the front of `bytes` is no `Gap`, if it is none.
    pub open spec fn wire_error(bytes: Seq<u8>, endianness: Endianness) -> Option<CodecError> {
        if bytes.len() < 16 {
            Some(CodecError::InputTooShort)
        } else {
            SequenceNumberSetView::wire_error(bytes.skip(16), endianness)
        }
    }

    /// What the first bytes of a `Gap`, up to the number of bits of its
    /// bitmap, say of its length in bytes: the length, or why there is none
    /// to be had.
    pub open spec fn framed_len(head: Seq<u8>, endianness: Endianness) -> Result<
        usize,
        CodecError,
    > {
        if head.len() < 28 {
            Err(CodecError::InputTooShort)
        } else {
            match SequenceNumberSetView::framed_len(head.skip(16), endianness) {
                Ok(len) => Ok((16 + len) as usize),
                Err(e) => Err(e),
            }
        }
    }

    /// The `Gap` that stands at the front of `bytes`.
    pub open spec fn from_wire(bytes: Seq<u8>, endianness: Endianness) -> GapView {
        GapView {
            reader_id: EntityId_t::from_wire(bytes, endianness),
            writer_id: EntityId_t::from_wire(bytes.skip(4), endianness),
            gap_start: SequenceNumber_t::from_wire(bytes.skip(8), endianness),
            gap_list: SequenceNumberSetView::from_wire(bytes.skip(16), endianness),
        }
    }

    /// A `Gap` stands at the front of `bytes` exactly if its first bytes
    /// give a length and `bytes` is as long.
    pub proof fn lemma_framed_len(bytes: Seq<u8>, endianness: Endianness)
        ensures
            Self::wire_error(bytes, endianness).is_none() <==> (Self::framed_len(
                bytes,
                endianness,
            ) matches Ok(n) && bytes.len() >= n),
    {
        if bytes.len() >= 16 {
            SequenceNumberSetView::lemma_framed_len(bytes.skip(16), endianness);
        }
    }

    /// A `Gap` that is written and read back has the same fields; the set
    /// holds the same numbers over the same base.
    pub proof fn lemma_round_trip(self, endianness: Endianness, rest: Seq<u8>)
        requires
            self.gap_list.well_formed(),
        ensures
            Self::wire_error(self.wire_bytes(endianness) + rest, endianness).is_none(),
            Self::from_wire(self.wire_bytes(endianness) + rest, endianness).reader_id
                == self.reader_id,
            Self::from_wire(self.wire_bytes(endianness) + rest, endianness).writer_id
                == self.writer_id,
            Self::from_wire(self.wire_bytes(endianness) + rest, endianness).gap_start
                == self.gap_start,
            Self::from_wire(self.wire_bytes(endianness) + rest, endianness).gap_list.base
                == self.gap_list.base,
            Self::from_wire(self.wire_bytes(endianness) + rest, endianness).gap_list.offsets
                == self.gap_list.offsets,
    {
        let wire = self.wire_bytes(endianness) + rest;
        let r3 = self.gap_list.wire_bytes(endianness) + rest;
        let r2 = self.gap_start.wire_bytes(endianness) + r3;
        let r1 = self.writer_id.wire_bytes(endianness) + r2;
        self.reader_id.lemma_round_trip(endianness, r1);
        self.writer_id.lemma_round_trip(endianness, r2);
        self.gap_start.lemma_round_trip(endianness, r3);
        self.gap_list.lemma_round_trip(endianness, rest);
        assert(wire =~= self.reader_id.wire_bytes(endianness) + r1);
        assert(wire.skip(4) =~= r1);
        assert(wire.skip(8) =~= r2);
        assert(wire.skip(16) =~= r3);
    }
}

impl Gap {
    /// Reads the `Gap` at the front of `bytes`.
    pub fn read_from(bytes: &[u8], endianness: Endianness) -> (r: Result<Gap, CodecError>)
        ensures
            match r {
                Ok(gap) => {
                    &&& GapView::wire_error(bytes@, endianness).is_none()
                    &&& gap@ == GapView::from_wire(bytes@, endianness)
                    &&& gap@.gap_list.well_formed()
                },
                Err(e) => GapView::wire_error(bytes@, endianness) == Some(e),
            },
    {
        if bytes.len() < 16 {
            return Err(CodecError::InputTooShort);
        }
        let end = bytes.len();
        let reader_id = EntityId_t::read_from(bytes, endianness)?;
        let writer_id = EntityId_t::read_from(slice_subrange(bytes, 4, end), endianness)?;
        let gap_start = SequenceNumber_t::read_from(slice_subrange(bytes, 8, end), endianness)?;
        let (gap_list, _) = SequenceNumberSet_t::read_from(
            slice_subrange(bytes, 16, end),
            endianness,
        )?;
        Ok(Gap { reader_id, writer_id, gap_start, gap_list })
    }

    /// The smallest number of bytes that a `Gap` takes: those of one with
    /// an empty bitmap.
    pub fn minimum_bytes_needed() -> (n: usize)
        ensures
            n == 28,
    {
        28
    }

    /// The number of bytes that the `Gap` takes whose first bytes are
    /// `head`. It is told from the first 28 bytes alone.
    pub fn framed_len(head: &[u8], endianness: Endianness) -> (r: Result<usize, CodecError>)
        ensures
            r == GapView::framed_len(head@, endianness),
    {
        if head.len() < 28 {
            return Err(CodecError::InputTooShort);
        }
        let gap_list = slice_subrange(head, 16, head.len());
        let len = SequenceNumberSet_t::framed_len(gap_list, endianness)?;
        Ok(16 + len)
    }

    /// Appends the wire form to `out`.
    pub fn write_to(&self, endianness: Endianness, out: &mut Vec<u8>)
        ensures
            final(out)@ == old(out)@ + self@.wire_bytes(endianness),
    {
        self.reader_id.write_to(endianness, out);
        self.writer_id.write_to(endianness, out);
        self.gap_start.write_to(endianness, out);
        self.gap_list.write_to(endianness, out);
        assert(out@ =~= old(out)@ + self@.wire_bytes(endianness));
    }
}

} // verus!
