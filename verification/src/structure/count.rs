use crate::common::endianness::{
    i32_bytes, i32_from_bytes, lemma_i32_round_trip, read_i32, write_i32, Endianness,
};
use crate::common::error::CodecError;
use vstd::prelude::*;

verus! {

/// A counter that tells one message of a kind from the next.
#[derive(Copy, Clone, Debug, PartialOrd, PartialEq, Ord, Eq, Structural)]
pub struct Count_t {
    pub value: i32,
}

impl Count_t {
    /// The wire form: the counter as four bytes.
    pub open spec fn wire_bytes(&self, endianness: Endianness) -> Seq<u8> {
        i32_bytes(self.value, endianness)
    }

    /// The counter that stands at the front of `bytes`.
    pub open spec fn from_wire(bytes: Seq<u8>, endianness: Endianness) -> Count_t {
        Count_t { value: i32_from_bytes(bytes, endianness) }
    }

    /// The number of bytes that the wire form takes.
    pub fn minimum_bytes_needed() -> (n: usize)
        ensures
            n == 4,
    {
        4
    }

    /// Reads the counter at the front of `bytes`.
    pub fn read_from(bytes: &[u8], endianness: Endianness) -> (r: Result<Count_t, CodecError>)
        ensures
            r == if bytes@.len() >= 4 {
                Ok::<Count_t, CodecError>(Count_t::from_wire(bytes@, endianness))
            } else {
                Err(CodecError::InputTooShort)
            },
    {
        if bytes.len() < 4 {
            return Err(CodecError::InputTooShort);
        }
        assert(bytes@.skip(0) =~= bytes@);
        Ok(Count_t { value: read_i32(bytes, 0, endianness) })
    }

    /// Appends the wire form to `out`.
    pub fn write_to(&self, endianness: Endianness, out: &mut Vec<u8>)
        ensures
            final(out)@ == old(out)@ + self.wire_bytes(endianness),
    {
        write_i32(self.value, endianness, out);
    }

    /// A counter that is written and read back is unchanged.
    pub proof fn lemma_round_trip(self, endianness: Endianness, rest: Seq<u8>)
        ensures
            self.wire_bytes(endianness).len() == 4,
            Count_t::from_wire(self.wire_bytes(endianness) + rest, endianness) == self,
    {
        lemma_i32_round_trip(self.value, endianness, rest);
    }
}

impl From<i32> for Count_t {
    fn from(value: i32) -> (count: Self) {
        Count_t { value }
    }
}

impl vstd::std_specs::convert::FromSpecImpl<i32> for Count_t {
    open spec fn obeys_from_spec() -> bool {
        true
    }

    open spec fn from_spec(value: i32) -> Self {
        Count_t { value }
    }
}

} // verus!
