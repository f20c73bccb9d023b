use crate::common::endianness::{
    i32_bytes, i32_from_bytes, lemma_i32_round_trip, lemma_u32_round_trip, read_i32, read_u32,
    u32_bytes, u32_from_bytes, write_i32, write_u32, Endianness,
};
use crate::common::error::CodecError;
use crate::common::validity_trait::Validity;
use vstd::prelude::*;

verus! {

/// The number of a change in a writer's history: a signed 64-bit number that
/// travels as a signed high half and an unsigned low half.
#[derive(Copy, Clone, Debug, PartialOrd, PartialEq, Ord, Eq, Structural)]
pub struct SequenceNumber_t {
    pub value: i64,
}

impl SequenceNumber_t {
    /// The number that stands for "no sequence number": high half -1, low
    /// half 0.
    #[verifier::allow_in_spec]
    pub fn SEQUENCENUMBER_UNKNOWN() -> SequenceNumber_t
        returns
            (SequenceNumber_t { value: -0x1_0000_0000i64 }),
    {
        SequenceNumber_t { value: -0x1_0000_0000i64 }
    }

    /// The high half: the number divided by 2^32, rounded down.
    pub open spec fn high(&self) -> i32 {
        (self.value / 0x1_0000_0000) as i32
    }

    /// The low half: what the high half leaves, between 0 and 2^32 - 1.
    pub open spec fn low(&self) -> u32 {
        (self.value % 0x1_0000_0000) as u32
    }

    /// The wire form: the high half, then the low half, four bytes each.
    pub open spec fn wire_bytes(&self, endianness: Endianness) -> Seq<u8> {
        i32_bytes(self.high(), endianness) + u32_bytes(self.low(), endianness)
    }

    /// The sequence number that stands at the front of `bytes`.
    pub open spec fn from_wire(bytes: Seq<u8>, endianness: Endianness) -> SequenceNumber_t {
        SequenceNumber_t {
            value: (i32_from_bytes(bytes, endianness) * 0x1_0000_0000 + u32_from_bytes(
                bytes.skip(4),
                endianness,
            )) as i64,
        }
    }

    /// The number of bytes that the wire form takes.
    pub fn minimum_bytes_needed() -> (n: usize)
        ensures
            n == 8,
    {
        8
    }

    /// Reads the sequence number at the front of `bytes`.
    pub fn read_from(bytes: &[u8], endianness: Endianness) -> (r: Result<
        SequenceNumber_t,
        CodecError,
    >)
        ensures
            r == if bytes@.len() >= 8 {
                Ok::<SequenceNumber_t, CodecError>(SequenceNumber_t::from_wire(bytes@, endianness))
            } else {
                Err(CodecError::InputTooShort)
            },
    {
        if bytes.len() < 8 {
            return Err(CodecError::InputTooShort);
        }
        assert(bytes@.skip(0) =~= bytes@);
        let high: i32 = read_i32(bytes, 0, endianness);
        let low: u32 = read_u32(bytes, 4, endianness);
        Ok(SequenceNumber_t { value: high as i64 * 0x1_0000_0000 + low as i64 })
    }

    /// Appends the wire form to `out`.
    pub fn write_to(&self, endianness: Endianness, out: &mut Vec<u8>)
        ensures
            final(out)@ == old(out)@ + self.wire_bytes(endianness),
    {
        let bits: u64 = if self.value >= 0 {
            self.value as u64
        } else {
            (self.value as i128 + 0x1_0000_0000_0000_0000) as u64
        };
        let high_bits: u32 = (bits / 0x1_0000_0000) as u32;
        let low: u32 = (bits % 0x1_0000_0000) as u32;
        let high: i32 = if high_bits < 0x8000_0000 {
            high_bits as i32
        } else {
            (high_bits as i64 - 0x1_0000_0000) as i32
        };
        assert(high == self.high());
        assert(low == self.low());
        write_i32(high, endianness, out);
        write_u32(low, endianness, out);
        assert(out@ =~= old(out)@ + self.wire_bytes(endianness));
    }

    /// A sequence number that is written and read back is unchanged.
    pub proof fn lemma_round_trip(self, endianness: Endianness, rest: Seq<u8>)
        ensures
            self.wire_bytes(endianness).len() == 8,
            SequenceNumber_t::from_wire(self.wire_bytes(endianness) + rest, endianness) == self,
    {
        let wire = self.wire_bytes(endianness) + rest;
        let tail = u32_bytes(self.low(), endianness) + rest;
        assert(wire =~= i32_bytes(self.high(), endianness) + tail);
        lemma_i32_round_trip(self.high(), endianness, tail);
        assert(wire.skip(4) =~= tail);
        lemma_u32_round_trip(self.low(), endianness, rest);
    }
}

impl Validity for SequenceNumber_t {
    /// A sequence number is valid if it is 1 or more.
    open spec fn is_valid(&self) -> bool {
        self.value >= 1
    }

    fn valid(&self) -> (ok: bool) {
        self.value >= 1
    }
}

impl From<i64> for SequenceNumber_t {
    fn from(value: i64) -> (number: Self) {
        SequenceNumber_t { value }
    }
}

impl vstd::std_specs::convert::FromSpecImpl<i64> for SequenceNumber_t {
    open spec fn obeys_from_spec() -> bool {
        true
    }

    open spec fn from_spec(value: i64) -> Self {
        SequenceNumber_t { value }
    }
}

} // verus!
