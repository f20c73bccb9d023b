use crate::common::endianness::{
    lemma_u32_round_trip, read_u32, u32_bytes, u32_from_bytes, write_u32, Endianness,
};
use crate::common::error::CodecError;
use vstd::prelude::*;

verus! {

/// The number of a fragment of a sample; the first fragment has number 1.
#[derive(Copy, Clone, Debug, PartialOrd, PartialEq, Ord, Eq, Structural)]
pub struct FragmentNumber_t {
    pub value: u32,
}

impl FragmentNumber_t {
    /// The wire form: the number as four bytes.
    pub open spec fn wire_bytes(&self, endianness: Endianness) -> Seq<u8> {
        u32_bytes(self.value, endianness)
    }

    /// The fragment number that stands at the front of `bytes`.
    pub open spec fn from_wire(bytes: Seq<u8>, endianness: Endianness) -> FragmentNumber_t {
        FragmentNumber_t { value: u32_from_bytes(bytes, endianness) }
    }

    /// The number of bytes that the wire form takes.
    pub fn minimum_bytes_needed() -> (n: usize)
        ensures
            n == 4,
    {
        4
    }

    /// Reads the fragment number at the front of `bytes`.
    pub fn read_from(bytes: &[u8], endianness: Endianness) -> (r: Result<
        FragmentNumber_t,
        CodecError,
    >)
        ensures
            r == if bytes@.len() >= 4 {
                Ok::<FragmentNumber_t, CodecError>(FragmentNumber_t::from_wire(bytes@, endianness))
            } else {
                Err(CodecError::InputTooShort)
            },
    {
        if bytes.len() < 4 {
            return Err(CodecError::InputTooShort);
        }
        assert(bytes@.skip(0) =~= bytes@);
        Ok(FragmentNumber_t { value: read_u32(bytes, 0, endianness) })
    }

    /// Appends the wire form to `out`.
    pub fn write_to(&self, endianness: Endianness, out: &mut Vec<u8>)
        ensures
            final(out)@ == old(out)@ + self.wire_bytes(endianness),
    {
        write_u32(self.value, endianness, out);
    }

    /// A fragment number that is written and read back is unchanged.
    pub proof fn lemma_round_trip(self, endianness: Endianness, rest: Seq<u8>)
        ensures
            self.wire_bytes(endianness).len() == 4,
            FragmentNumber_t::from_wire(self.wire_bytes(endianness) + rest, endianness) == self,
    {
        lemma_u32_round_trip(self.value, endianness, rest);
    }
}

impl From<u32> for FragmentNumber_t {
    fn from(value: u32) -> (number: Self) {
        FragmentNumber_t { value }
    }
}

impl vstd::std_specs::convert::FromSpecImpl<u32> for FragmentNumber_t {
    open spec fn obeys_from_spec() -> bool {
        true
    }

    open spec fn from_spec(value: u32) -> Self {
        FragmentNumber_t { value }
    }
}

} // verus!
