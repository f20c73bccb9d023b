use crate::common::bit_set_ref::{
    bitmap_bytes, bitmap_error, bitmap_members, bitmap_num_bits, bitmap_well_formed,
    bitmap_framed_len, bitmap_wire_len, blocks_for_bits, lemma_bitmap_framed_len,
    lemma_bitmap_round_trip, BitSetRef,
};
use crate::common::endianness::Endianness;
use crate::common::error::CodecError;
use crate::common::validity_trait::Validity;
use crate::messages::fragment_number::FragmentNumber_t;
use vstd::prelude::*;
use vstd::slice::slice_subrange;

verus! {

/// A set of fragment numbers in the range of 256 numbers that starts at a
/// base. It tells a writer which fragments a reader still misses.
#[derive(Debug, PartialEq)]
pub struct FragmentNumberSet_t {
    base: FragmentNumber_t,
    set: BitSetRef,
}

/// What a `FragmentNumberSet_t` stands for: its base, the offsets from the
/// base of the numbers it holds, and the length in bits of its bitmap.
pub struct FragmentNumberSetView {
    pub base: FragmentNumber_t,
    pub offsets: Set<nat>,
    pub num_bits: nat,
}

impl FragmentNumberSetView {
    /// Whether the set has room for `number`: it is the base or one of the
    /// 255 numbers after it.
    pub open spec fn in_range(&self, number: FragmentNumber_t) -> bool {
        self.base.value <= number.value <= self.base.value + 255
    }

    /// Whether the set holds `number`.
    pub open spec fn contains(&self, number: FragmentNumber_t) -> bool {
        self.in_range(number) && self.offsets.contains((number.value - self.base.value) as nat)
    }

    /// The set with `number` added, which lies in its range.
    pub open spec fn insert(&self, number: FragmentNumber_t) -> FragmentNumberSetView {
        let offset = (number.value - self.base.value) as nat;
        FragmentNumberSetView {
            base: self.base,
            offsets: self.offsets.insert(offset),
            num_bits: if offset < self.num_bits {
                self.num_bits
            } else {
                offset + 1
            },
        }
    }

    /// What holds of every set: see `bitmap_well_formed`.
    pub open spec fn well_formed(&self) -> bool {
        bitmap_well_formed(self.offsets, self.num_bits)
    }

    /// The wire form: the base, then the bitmap of the offsets.
    pub open spec fn wire_bytes(&self, endianness: Endianness) -> Seq<u8> {
        self.base.wire_bytes(endianness) + bitmap_bytes(self.offsets, self.num_bits, endianness)
    }

    /// Why the front of `bytes` is no fragment-number set, if it is none.
    pub open spec fn wire_error(bytes: Seq<u8>, endianness: Endianness) -> Option<CodecError> {
        if bytes.len() < 4 {
            Some(CodecError::InputTooShort)
        } else {
            bitmap_error(bytes.skip(4), endianness)
        }
    }

    /// The set that stands at the front of `bytes`.
    pub open spec fn from_wire(bytes: Seq<u8>, endianness: Endianness) -> FragmentNumberSetView {
        FragmentNumberSetView {
            base: FragmentNumber_t::from_wire(bytes, endianness),
            offsets: bitmap_members(bytes.skip(4), endianness),
            num_bits: bitmap_num_bits(bytes.skip(4), endianness),
        }
    }

    /// What the first bytes of a set, its base and the number of bits of its
    /// bitmap, say of its length in bytes: the length, or why there is none
    /// to be had.
    pub open spec fn framed_len(head: Seq<u8>, endianness: Endianness) -> Result<
        usize,
        CodecError,
    > {
        if head.len() < 8 {
            Err(CodecError::InputTooShort)
        } else {
            match bitmap_framed_len(head.skip(4), endianness) {
                Ok(len) => Ok((4 + len) as usize),
                Err(e) => Err(e),
            }
        }
    }

    /// The number of bytes that the set at the front of `bytes` takes.
    pub open spec fn wire_len(bytes: Seq<u8>, endianness: Endianness) -> nat {
        4 + bitmap_wire_len(bytes.skip(4), endianness)
    }

    /// A set stands at the front of `bytes` exactly if its first bytes give a
    /// length and `bytes` is as long; the length is then the number of bytes
    /// that the set takes.
    pub proof fn lemma_framed_len(bytes: Seq<u8>, endianness: Endianness)
        ensures
            Self::wire_error(bytes, endianness).is_none() <==> (Self::framed_len(
                bytes,
                endianness,
            ) matches Ok(n) && bytes.len() >= n),
            Self::framed_len(bytes, endianness) matches Ok(n) ==> n == Self::wire_len(
                bytes,
                endianness,
            ),
    {
        if bytes.len() >= 8 {
            lemma_bitmap_framed_len(bytes.skip(4), endianness, 4);
        }
    }

    /// A number that was added to a set is in the set.
    pub proof fn lemma_insert_contains(self, number: FragmentNumber_t)
        requires
            self.in_range(number),
        ensures
            self.insert(number).contains(number),
    {
    }

    /// Adding a number leaves every other number in the set or out of it as
    /// it was.
    pub proof fn lemma_insert_keeps_others(
        self,
        number: FragmentNumber_t,
        other: FragmentNumber_t,
    )
        requires
            self.in_range(number),
            other != number,
        ensures
            self.insert(number).contains(other) == self.contains(other),
    {
    }

    /// A set holds no number outside its range.
    pub proof fn lemma_out_of_range_not_contained(self, number: FragmentNumber_t)
        requires
            !self.in_range(number),
        ensures
            !self.contains(number),
    {
    }

    /// A set that is written and read back has the same base and holds the
    /// same numbers; the length of its bitmap comes back rounded up to whole
    /// 32-bit blocks.
    pub proof fn lemma_round_trip(self, endianness: Endianness, rest: Seq<u8>)
        requires
            self.well_formed(),
        ensures
            Self::wire_error(self.wire_bytes(endianness) + rest, endianness).is_none(),
            Self::from_wire(self.wire_bytes(endianness) + rest, endianness).base == self.base,
            Self::from_wire(self.wire_bytes(endianness) + rest, endianness).offsets
                == self.offsets,
            Self::from_wire(self.wire_bytes(endianness) + rest, endianness).num_bits == 32
                * blocks_for_bits(self.num_bits),
            Self::wire_len(self.wire_bytes(endianness) + rest, endianness) == self.wire_bytes(
                endianness,
            ).len(),
    {
        let wire = self.wire_bytes(endianness) + rest;
        let bitmap = bitmap_bytes(self.offsets, self.num_bits, endianness);
        assert(wire =~= self.base.wire_bytes(endianness) + (bitmap + rest));
        self.base.lemma_round_trip(endianness, bitmap + rest);
        assert(wire.skip(4) =~= bitmap + rest);
        lemma_bitmap_round_trip(self.offsets, self.num_bits, endianness, rest);
    }
}

impl View for FragmentNumberSet_t {
    type V = FragmentNumberSetView;

    closed spec fn view(&self) -> FragmentNumberSetView {
        FragmentNumberSetView {
            base: self.base,
            offsets: self.set.members(),
            num_bits: self.set.nbits(),
        }
    }
}

impl FragmentNumberSet_t {
    /// The empty set with the base `new_base`.
    pub fn new(new_base: FragmentNumber_t) -> (set: FragmentNumberSet_t)
        ensures
            set@ == (FragmentNumberSetView {
                base: new_base,
                offsets: Set::<nat>::empty(),
                num_bits: 0,
            }),
            set@.well_formed(),
    {
        FragmentNumberSet_t { base: new_base, set: BitSetRef::new() }
    }

    /// Adds `fragment_number` to the set if it lies in the set's range, and
    /// returns whether it does. Outside the range the set stays as it is.
    pub fn insert(&mut self, fragment_number: FragmentNumber_t) -> (in_range: bool)
        ensures
            in_range == old(self)@.in_range(fragment_number),
            final(self)@ == if in_range {
                old(self)@.insert(fragment_number)
            } else {
                old(self)@
            },
            final(self)@.well_formed(),
    {
        proof {
            use_type_invariant(&self.set);
        }
        let in_range = self.is_in_range(fragment_number);
        if in_range {
            let offset = self.base_offset(fragment_number);
            self.set.insert(offset as u8);
        }
        in_range
    }

    /// Whether the set holds `fragment_number`.
    pub fn contains(&self, fragment_number: FragmentNumber_t) -> (found: bool)
        ensures
            found == self@.contains(fragment_number),
    {
        if self.is_in_range(fragment_number) {
            return self.set.contains(self.base_offset(fragment_number) as u8);
        }
        false
    }

    /// Whether the set has room for `fragment_number`.
    pub fn is_in_range(&self, fragment_number: FragmentNumber_t) -> (in_range: bool)
        ensures
            in_range == self@.in_range(fragment_number),
    {
        fragment_number.value >= self.base.value && fragment_number.value - self.base.value <= 255
    }

    /// The offset of `fragment_number` from the base.
    pub fn base_offset(&self, fragment_number: FragmentNumber_t) -> (offset: usize)
        requires
            self@.base.value <= fragment_number.value,
        ensures
            offset == fragment_number.value - self@.base.value,
    {
        (fragment_number.value - self.base.value) as usize
    }

    /// The base of the set.
    pub fn base(&self) -> (base: FragmentNumber_t)
        ensures
            base == self@.base,
    {
        self.base
    }

    /// The smallest number of bytes that a set takes: those of its base and
    /// of the number of bits of its bitmap.
    pub fn minimum_bytes_needed() -> (n: usize)
        ensures
            n == 8,
    {
        8
    }

    /// The number of bytes that the set takes whose first bytes are `head`.
    /// It is told from the first `minimum_bytes_needed()` bytes alone.
    pub fn framed_len(head: &[u8], endianness: Endianness) -> (r: Result<usize, CodecError>)
        ensures
            r == FragmentNumberSetView::framed_len(head@, endianness),
    {
        if head.len() < 8 {
            return Err(CodecError::InputTooShort);
        }
        let len = BitSetRef::framed_len(slice_subrange(head, 4, head.len()), endianness)?;
        Ok(4 + len)
    }

    /// Appends the wire form of the set to `out`.
    pub fn write_to(&self, endianness: Endianness, out: &mut Vec<u8>)
        ensures
            final(out)@ == old(out)@ + self@.wire_bytes(endianness),
    {
        self.base.write_to(endianness, out);
        self.set.write_to(endianness, out);
        assert(out@ =~= old(out)@ + self@.wire_bytes(endianness));
    }

    /// Reads the set at the front of `bytes`, and says how many bytes it
    /// takes.
    pub fn read_from(bytes: &[u8], endianness: Endianness) -> (r: Result<
        (FragmentNumberSet_t, usize),
        CodecError,
    >)
        ensures
            match r {
                Ok((set, used)) => {
                    &&& FragmentNumberSetView::wire_error(bytes@, endianness).is_none()
                    &&& set@ == FragmentNumberSetView::from_wire(bytes@, endianness)
                    &&& used == FragmentNumberSetView::wire_len(bytes@, endianness)
                    &&& set@.well_formed()
                },
                Err(e) => FragmentNumberSetView::wire_error(bytes@, endianness) == Some(e),
            },
    {
        let base = match FragmentNumber_t::read_from(bytes, endianness) {
            Ok(base) => base,
            Err(e) => {
                return Err(e);
            },
        };
        let bitmap = slice_subrange(bytes, 4, bytes.len());
        match BitSetRef::read_from(bitmap, endianness) {
            Ok((set, used)) => Ok((FragmentNumberSet_t { base, set }, 4 + used)),
            Err(e) => Err(e),
        }
    }
}

impl Validity for FragmentNumberSet_t {
    /// A set is valid if its base is 1 or more and it holds at least one
    /// number and at most 256.
    open spec fn is_valid(&self) -> bool {
        self@.base.value >= 1 && 1 <= self@.offsets.len() <= 256
    }

    fn valid(&self) -> (ok: bool) {
        let count = self.set.len();
        self.base.value >= 1 && 0 < count && count <= 256
    }
}

} // verus!
