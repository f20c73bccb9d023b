use crate::common::endianness::{write_bytes, Endianness};
use crate::common::error::CodecError;
use vstd::prelude::*;

verus! {

/// The twelve bytes that all entities of one participant share.
#[derive(Copy, Clone, Debug, PartialOrd, PartialEq, Ord, Eq)]
pub struct GuidPrefix_t {
    pub entity_key: [u8; 12],
}

impl GuidPrefix_t {
    /// The prefix of an unknown participant: all zero.
    #[verifier::allow_in_spec]
    pub fn GUIDPREFIX_UNKNOWN() -> GuidPrefix_t
        returns
            (GuidPrefix_t { entity_key: [0x00, 0, 0, 0, 0, 0, 0, 0, 0, 0, 0, 0] }),
    {
        GuidPrefix_t { entity_key: [0x00, 0, 0, 0, 0, 0, 0, 0, 0, 0, 0, 0] }
    }

    /// The wire form: the twelve bytes in their order, whatever the
    /// endianness.
    pub open spec fn wire_bytes(&self, endianness: Endianness) -> Seq<u8> {
        self.entity_key@
    }

    /// The prefix that stands at the front of `bytes`.
    pub open spec fn from_wire(bytes: Seq<u8>, endianness: Endianness) -> GuidPrefix_t {
        GuidPrefix_t {
            entity_key: [
                bytes[0],
                bytes[1],
                bytes[2],
                bytes[3],
                bytes[4],
                bytes[5],
                bytes[6],
                bytes[7],
                bytes[8],
                bytes[9],
                bytes[10],
                bytes[11],
            ],
        }
    }

    /// The number of bytes that the wire form takes.
    pub fn minimum_bytes_needed() -> (n: usize)
        ensures
            n == 12,
    {
        12
    }

    /// Reads the prefix at the front of `bytes`.
    pub fn read_from(bytes: &[u8], endianness: Endianness) -> (r: Result<GuidPrefix_t, CodecError>)
        ensures
            r == if bytes@.len() >= 12 {
                Ok::<GuidPrefix_t, CodecError>(GuidPrefix_t::from_wire(bytes@, endianness))
            } else {
                Err(CodecError::InputTooShort)
            },
    {
        if bytes.len() < 12 {
            return Err(CodecError::InputTooShort);
        }
        let prefix = GuidPrefix_t {
            entity_key: [
                bytes[0],
                bytes[1],
                bytes[2],
                bytes[3],
                bytes[4],
                bytes[5],
                bytes[6],
                bytes[7],
                bytes[8],
                bytes[9],
                bytes[10],
                bytes[11],
            ],
        };
        assert(prefix.entity_key =~= GuidPrefix_t::from_wire(bytes@, endianness).entity_key);
        Ok(prefix)
    }

    /// Appends the wire form to `out`.
    pub fn write_to(&self, endianness: Endianness, out: &mut Vec<u8>)
        ensures
            final(out)@ == old(out)@ + self.wire_bytes(endianness),
    {
        write_bytes(self.entity_key.as_slice(), out);
    }

    /// Whether this is the prefix of an unknown participant.
    pub fn is_unknown(&self) -> (unknown: bool)
        ensures
            unknown == (*self == GuidPrefix_t::GUIDPREFIX_UNKNOWN()),
    {
        let mut i: usize = 0;
        while i < 12
            invariant
                i <= 12,
                forall|k: int| 0 <= k < i ==> self.entity_key[k] == 0,
            decreases 12 - i,
        {
            if self.entity_key[i] != 0 {
                return false;
            }
            i += 1;
        }
        assert(self.entity_key =~= GuidPrefix_t::GUIDPREFIX_UNKNOWN().entity_key);
        true
    }

    /// A prefix that is written and read back is unchanged.
    pub proof fn lemma_round_trip(self, endianness: Endianness, rest: Seq<u8>)
        ensures
            self.wire_bytes(endianness).len() == 12,
            GuidPrefix_t::from_wire(self.wire_bytes(endianness) + rest, endianness) == self,
    {
        let back = GuidPrefix_t::from_wire(self.wire_bytes(endianness) + rest, endianness);
        assert(back.entity_key =~= self.entity_key);
    }

    /// The wire form does not depend on the endianness.
    pub proof fn lemma_endianness_invariant(self)
        ensures
            self.wire_bytes(Endianness::LittleEndian) == self.wire_bytes(Endianness::BigEndian),
    {
    }
}

impl Default for GuidPrefix_t {
    fn default() -> (prefix: GuidPrefix_t)
        ensures
            prefix == GuidPrefix_t::GUIDPREFIX_UNKNOWN(),
    {
        GuidPrefix_t::GUIDPREFIX_UNKNOWN()
    }
}

impl From<[u8; 12]> for GuidPrefix_t {
    fn from(entity_key: [u8; 12]) -> (prefix: Self) {
        GuidPrefix_t { entity_key }
    }
}

impl vstd::std_specs::convert::FromSpecImpl<[u8; 12]> for GuidPrefix_t {
    open spec fn obeys_from_spec() -> bool {
        true
    }

    open spec fn from_spec(entity_key: [u8; 12]) -> Self {
        GuidPrefix_t { entity_key }
    }
}

} // verus!
