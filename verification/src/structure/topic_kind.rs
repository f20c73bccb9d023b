use crate::common::endianness::{
    lemma_u32_round_trip, read_u32, u32_bytes, u32_from_bytes, write_u32, Endianness,
};
use crate::common::error::CodecError;
use vstd::prelude::*;

verus! {

/// Whether the samples of a topic carry a key. On the wire a 32-bit tag:
/// 1 for `NO_KEY`, 2 for `WITH_KEY`.
#[derive(Copy, Clone, Debug, PartialEq, Eq, Structural)]
pub enum TopicKind_t {
    NO_KEY,
    WITH_KEY,
}

impl TopicKind_t {
    /// The tag that stands for the kind on the wire.
    pub open spec fn tag(&self) -> u32 {
        match *self {
            TopicKind_t::NO_KEY => 1,
            TopicKind_t::WITH_KEY => 2,
        }
    }

    /// The kind that `tag` stands for, if it stands for one.
    pub open spec fn of_tag(tag: u32) -> Option<TopicKind_t> {
        if tag == 1 {
            Some(TopicKind_t::NO_KEY)
        } else if tag == 2 {
            Some(TopicKind_t::WITH_KEY)
        } else {
            None
        }
    }

    /// The wire form: the tag as four bytes.
    pub open spec fn wire_bytes(&self, endianness: Endianness) -> Seq<u8> {
        u32_bytes(self.tag(), endianness)
    }

    /// What reading a topic kind at the front of `bytes` gives.
    pub open spec fn from_wire(bytes: Seq<u8>, endianness: Endianness) -> Result<
        TopicKind_t,
        CodecError,
    > {
        if bytes.len() < 4 {
            Err(CodecError::InputTooShort)
        } else {
            match TopicKind_t::of_tag(u32_from_bytes(bytes, endianness)) {
                Some(kind) => Ok(kind),
                None => Err(CodecError::InvalidTag),
            }
        }
    }

    /// The number of bytes that the wire form takes.
    pub fn minimum_bytes_needed() -> (n: usize)
        ensures
            n == 4,
    {
        4
    }

    /// Reads the topic kind at the front of `bytes`.
    pub fn read_from(bytes: &[u8], endianness: Endianness) -> (r: Result<TopicKind_t, CodecError>)
        ensures
            r == TopicKind_t::from_wire(bytes@, endianness),
    {
        if bytes.len() < 4 {
            return Err(CodecError::InputTooShort);
        }
        assert(bytes@.skip(0) =~= bytes@);
        let tag = read_u32(bytes, 0, endianness);
        if tag == 1 {
            Ok(TopicKind_t::NO_KEY)
        } else if tag == 2 {
            Ok(TopicKind_t::WITH_KEY)
        } else {
            Err(CodecError::InvalidTag)
        }
    }

    /// Appends the wire form to `out`.
    pub fn write_to(&self, endianness: Endianness, out: &mut Vec<u8>)
        ensures
            final(out)@ == old(out)@ + self.wire_bytes(endianness),
    {
        let tag: u32 = match self {
            TopicKind_t::NO_KEY => 1,
            TopicKind_t::WITH_KEY => 2,
        };
        write_u32(tag, endianness, out);
    }

    /// A topic kind that is written and read back is unchanged.
    pub proof fn lemma_round_trip(self, endianness: Endianness, rest: Seq<u8>)
        ensures
            self.wire_bytes(endianness).len() == 4,
            TopicKind_t::from_wire(self.wire_bytes(endianness) + rest, endianness) == Ok::<
                TopicKind_t,
                CodecError,
            >(self),
    {
        lemma_u32_round_trip(self.tag(), endianness, rest);
    }
}

} // verus!
