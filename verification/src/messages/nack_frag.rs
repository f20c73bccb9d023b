use crate::common::endianness::{lemma_skip_run, Endianness};
use crate::common::error::CodecError;
use crate::messages::fragment_number_set::{FragmentNumberSetView, FragmentNumberSet_t};
use crate::structure::count::Count_t;
use crate::structure::entity_id::EntityId_t;
use crate::structure::sequence_number::SequenceNumber_t;
use vstd::prelude::*;
use vstd::slice::slice_subrange;

verus! {

/// A reader tells a writer which fragments of a change it misses. Unlike an
/// `AckNack` it says nothing of what the reader has.
#[derive(Debug, PartialEq)]
pub struct NackFrag {
    /// The reader that asks for the fragments.
    pub reader_id: EntityId_t,
    /// The writer that is asked to send them again.
    pub writer_id: EntityId_t,
    /// The change of which fragments are missing.
    pub writer_sn: SequenceNumber_t,
    /// The fragments that the reader misses. Of a fragment that is not in the
    /// set nothing is said.
    pub fragment_number_state: FragmentNumberSet_t,
    /// Counts the messages of this kind that the reader sends.
    pub count: Count_t,
}

/// What a `NackFrag` stands for.
pub struct NackFragView {
    pub reader_id: EntityId_t,
    pub writer_id: EntityId_t,
    pub writer_sn: SequenceNumber_t,
    pub fragment_number_state: FragmentNumberSetView,
    pub count: Count_t,
}

impl View for NackFrag {
    type V = NackFragView;

    open spec fn view(&self) -> NackFragView {
        NackFragView {
            reader_id: self.reader_id,
            writer_id: self.writer_id,
            writer_sn: self.writer_sn,
            fragment_number_state: self.fragment_number_state@,
            count: self.count,
        }
    }
}

impl NackFragView {
    /// The wire form: the fields in their order.
    pub open spec fn wire_bytes(&self, endianness: Endianness) -> Seq<u8> {
        self.reader_id.wire_bytes(endianness) + self.writer_id.wire_bytes(endianness)
            + self.writer_sn.wire_bytes(endianness) + self.fragment_number_state.wire_bytes(
            endianness,
        ) + self.count.wire_bytes(endianness)
    }

    /// The offset of the count in the `NackFrag` at the front of `bytes`.
    pub open spec fn count_offset(bytes: Seq<u8>, endianness: Endianness) -> nat {
        16 + FragmentNumberSetView::wire_len(bytes.skip(16), endianness)
    }

    /// Why the front of `bytes` is no `NackFrag`, if it is none.
    pub open spec fn wire_error(bytes: Seq<u8>, endianness: Endianness) -> Option<CodecError> {
        if bytes.len() < 16 {
            Some(CodecError::InputTooShort)
        } else if FragmentNumberSetView::wire_error(bytes.skip(16), endianness).is_some() {
            FragmentNumberSetView::wire_error(bytes.skip(16), endianness)
        } else if bytes.len() < Self::count_offset(bytes, endianness) + 4 {
            Some(CodecError::InputTooShort)
        } else {
            None
        }
    }

    /// What the first bytes of a `NackFrag`, up to the number of bits of its
    /// bitmap, say of its length in bytes: the length, or why there is none
    /// to be had.
    pub open spec fn framed_len(head: Seq<u8>, endianness: Endianness) -> Result<
        usize,
        CodecError,
    > {
        if head.len() < 24 {
            Err(CodecError::InputTooShort)
        } else {
            match FragmentNumberSetView::framed_len(head.skip(16), endianness) {
                Ok(len) => Ok((16 + len + 4) as usize),
                Err(e) => Err(e),
            }
        }
    }

    /// The `NackFrag` that stands at the front of `bytes`.
    pub open spec fn from_wire(bytes: Seq<u8>, endianness: Endianness) -> NackFragView {
        NackFragView {
            reader_id: EntityId_t::from_wire(bytes, endianness),
            writer_id: EntityId_t::from_wire(bytes.skip(4), endianness),
            writer_sn: SequenceNumber_t::from_wire(bytes.skip(8), endianness),
            fragment_number_state: FragmentNumberSetView::from_wire(bytes.skip(16), endianness),
            count: Count_t::from_wire(
                bytes.skip(Self::count_offset(bytes, endianness) as int),
                endianness,
            ),
        }
    }

    /// A `NackFrag` stands at the front of `bytes` exactly if its first bytes
    /// give a length and `bytes` is as long.
    pub proof fn lemma_framed_len(bytes: Seq<u8>, endianness: Endianness)
        ensures
            Self::wire_error(bytes, endianness).is_none() <==> (Self::framed_len(
                bytes,
                endianness,
            ) matches Ok(n) && bytes.len() >= n),
    {
        if bytes.len() >= 16 {
            FragmentNumberSetView::lemma_framed_len(bytes.skip(16), endianness);
        }
    }

    /// A `NackFrag` that is written and read back has the same fields; the
    /// set holds the same numbers over the same base.
    pub proof fn lemma_round_trip(self, endianness: Endianness, rest: Seq<u8>)
        requires
            self.fragment_number_state.well_formed(),
        ensures
            Self::wire_error(self.wire_bytes(endianness) + rest, endianness).is_none(),
            Self::from_wire(self.wire_bytes(endianness) + rest, endianness).reader_id
                == self.reader_id,
            Self::from_wire(self.wire_bytes(endianness) + rest, endianness).writer_id
                == self.writer_id,
            Self::from_wire(self.wire_bytes(endianness) + rest, endianness).writer_sn
                == self.writer_sn,
            Self::from_wire(
                self.wire_bytes(endianness) + rest,
                endianness,
            ).fragment_number_state.base == self.fragment_number_state.base,
            Self::from_wire(
                self.wire_bytes(endianness) + rest,
                endianness,
            ).fragment_number_state.offsets == self.fragment_number_state.offsets,
            Self::from_wire(self.wire_bytes(endianness) + rest, endianness).count == self.count,
    {
        let wire = self.wire_bytes(endianness) + rest;
        let a0 = self.reader_id.wire_bytes(endianness);
        let a1 = self.writer_id.wire_bytes(endianness);
        let a2 = self.writer_sn.wire_bytes(endianness);
        let a3 = self.fragment_number_state.wire_bytes(endianness);
        let a4 = self.count.wire_bytes(endianness);
        let r4 = a4 + rest;
        let r3 = a3 + r4;
        let r2 = a2 + r3;
        let r1 = a1 + r2;
        assert(wire.skip(0) == a0 + r1) by {
            assert(wire =~= a0 + r1);
            assert(wire.skip(0) =~= wire);
        }
        self.reader_id.lemma_round_trip(endianness, r1);
        lemma_skip_run(wire, 0, a0, r1);
        self.writer_id.lemma_round_trip(endianness, r2);
        lemma_skip_run(wire, 4, a1, r2);
        self.writer_sn.lemma_round_trip(endianness, r3);
        lemma_skip_run(wire, 8, a2, r3);
        self.fragment_number_state.lemma_round_trip(endianness, r4);
        lemma_skip_run(wire, 16, a3, r4);
        self.count.lemma_round_trip(endianness, rest);
    }
}

impl NackFrag {
    /// Reads the `NackFrag` at the front of `bytes`.
    pub fn read_from(bytes: &[u8], endianness: Endianness) -> (r: Result<NackFrag, CodecError>)
        ensures
            match r {
                Ok(nack_frag) => {
                    &&& NackFragView::wire_error(bytes@, endianness).is_none()
                    &&& nack_frag@ == NackFragView::from_wire(bytes@, endianness)
                    &&& nack_frag@.fragment_number_state.well_formed()
                },
                Err(e) => NackFragView::wire_error(bytes@, endianness) == Some(e),
            },
    {
        if bytes.len() < 16 {
            return Err(CodecError::InputTooShort);
        }
        let end = bytes.len();
        let reader_id = EntityId_t::read_from(bytes, endianness)?;
        let writer_id = EntityId_t::read_from(slice_subrange(bytes, 4, end), endianness)?;
        let writer_sn = SequenceNumber_t::read_from(slice_subrange(bytes, 8, end), endianness)?;
        let (fragment_number_state, used) = FragmentNumberSet_t::read_from(
            slice_subrange(bytes, 16, end),
            endianness,
        )?;
        let count = Count_t::read_from(slice_subrange(bytes, 16 + used, end), endianness)?;
        Ok(NackFrag { reader_id, writer_id, writer_sn, fragment_number_state, count })
    }

    /// The smallest number of bytes that a `NackFrag` takes: those of one with
    /// an empty bitmap.
    pub fn minimum_bytes_needed() -> (n: usize)
        ensures
            n == 28,
    {
        28
    }

    /// The number of bytes that the `NackFrag` takes whose first bytes are
    /// `head`. It is told from the first 24 bytes alone.
    pub fn framed_len(head: &[u8], endianness: Endianness) -> (r: Result<usize, CodecError>)
        ensures
            r == NackFragView::framed_len(head@, endianness),
    {
        if head.len() < 24 {
            return Err(CodecError::InputTooShort);
        }
        let fragment_number_state = slice_subrange(head, 16, head.len());
        let len = FragmentNumberSet_t::framed_len(fragment_number_state, endianness)?;
        Ok(16 + len + 4)
    }

    /// Appends the wire form to `out`.
    pub fn write_to(&self, endianness: Endianness, out: &mut Vec<u8>)
        ensures
            final(out)@ == old(out)@ + self@.wire_bytes(endianness),
    {
        self.reader_id.write_to(endianness, out);
        self.writer_id.write_to(endianness, out);
        self.writer_sn.write_to(endianness, out);
        self.fragment_number_state.write_to(endianness, out);
        self.count.write_to(endianness, out);
        assert(out@ =~= old(out)@ + self@.wire_bytes(endianness));
    }
}

} // verus!
