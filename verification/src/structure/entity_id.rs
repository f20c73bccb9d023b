use crate::common::endianness::{write_bytes, Endianness};
use crate::common::error::CodecError;
use vstd::prelude::*;

verus! {

/// The four bytes that name a reader, a writer or a participant within a
/// host: a key of three bytes and a kind of one.
#[derive(Copy, Clone, Debug, PartialOrd, PartialEq, Ord, Eq)]
pub struct EntityId_t {
    pub entity_key: [u8; 3],
    pub entity_kind: u8,
}

impl EntityId_t {
    #[verifier::allow_in_spec]
    pub fn ENTITYID_UNKNOWN() -> EntityId_t
        returns
            (EntityId_t { entity_key: [0x00, 0x00, 0x00], entity_kind: 0x00 }),
    {
        EntityId_t { entity_key: [0x00, 0x00, 0x00], entity_kind: 0x00 }
    }

    #[verifier::allow_in_spec]
    pub fn ENTITYID_PARTICIPANT() -> EntityId_t
        returns
            (EntityId_t { entity_key: [0x00, 0x00, 0x01], entity_kind: 0xC1 }),
    {
        EntityId_t { entity_key: [0x00, 0x00, 0x01], entity_kind: 0xC1 }
    }

    #[verifier::allow_in_spec]
    pub fn ENTITYID_SEDP_BUILTIN_TOPIC_WRITER() -> EntityId_t
        returns
            (EntityId_t { entity_key: [0x00, 0x00, 0x02], entity_kind: 0xC2 }),
    {
        EntityId_t { entity_key: [0x00, 0x00, 0x02], entity_kind: 0xC2 }
    }

    #[verifier::allow_in_spec]
    pub fn ENTITYID_SEDP_BUILTIN_TOPIC_READER() -> EntityId_t
        returns
            (EntityId_t { entity_key: [0x00, 0x00, 0x02], entity_kind: 0xC7 }),
    {
        EntityId_t { entity_key: [0x00, 0x00, 0x02], entity_kind: 0xC7 }
    }

    #[verifier::allow_in_spec]
    pub fn ENTITYID_SEDP_BUILTIN_PUBLICATIONS_WRITER() -> EntityId_t
        returns
            (EntityId_t { entity_key: [0x00, 0x00, 0x03], entity_kind: 0xC2 }),
    {
        EntityId_t { entity_key: [0x00, 0x00, 0x03], entity_kind: 0xC2 }
    }

    #[verifier::allow_in_spec]
    pub fn ENTITYID_SEDP_BUILTIN_PUBLICATIONS_READER() -> EntityId_t
        returns
            (EntityId_t { entity_key: [0x00, 0x00, 0x03], entity_kind: 0xC7 }),
    {
        EntityId_t { entity_key: [0x00, 0x00, 0x03], entity_kind: 0xC7 }
    }

    #[verifier::allow_in_spec]
    pub fn ENTITYID_SEDP_BUILTIN_SUBSCRIPTIONS_WRITER() -> EntityId_t
        returns
            (EntityId_t { entity_key: [0x00, 0x00, 0x04], entity_kind: 0xC2 }),
    {
        EntityId_t { entity_key: [0x00, 0x00, 0x04], entity_kind: 0xC2 }
    }

    #[verifier::allow_in_spec]
    pub fn ENTITYID_SEDP_BUILTIN_SUBSCRIPTIONS_READER() -> EntityId_t
        returns
            (EntityId_t { entity_key: [0x00, 0x00, 0x04], entity_kind: 0xC7 }),
    {
        EntityId_t { entity_key: [0x00, 0x00, 0x04], entity_kind: 0xC7 }
    }

    #[verifier::allow_in_spec]
    pub fn ENTITYID_SPDP_BUILTIN_PARTICIPANT_WRITER() -> EntityId_t
        returns
            (EntityId_t { entity_key: [0x00, 0x01, 0x00], entity_kind: 0xC2 }),
    {
        EntityId_t { entity_key: [0x00, 0x01, 0x00], entity_kind: 0xC2 }
    }

    #[verifier::allow_in_spec]
    pub fn ENTITYID_SPDP_BUILTIN_PARTICIPANT_READER() -> EntityId_t
        returns
            (EntityId_t { entity_key: [0x00, 0x01, 0x00], entity_kind: 0xC7 }),
    {
        EntityId_t { entity_key: [0x00, 0x01, 0x00], entity_kind: 0xC7 }
    }

    #[verifier::allow_in_spec]
    pub fn ENTITYID_P2P_BUILTIN_PARTICIPANT_MESSAGE_WRITER() -> EntityId_t
        returns
            (EntityId_t { entity_key: [0x00, 0x02, 0x00], entity_kind: 0xC2 }),
    {
        EntityId_t { entity_key: [0x00, 0x02, 0x00], entity_kind: 0xC2 }
    }

    #[verifier::allow_in_spec]
    pub fn ENTITYID_P2P_BUILTIN_PARTICIPANT_MESSAGE_READER() -> EntityId_t
        returns
            (EntityId_t { entity_key: [0x00, 0x02, 0x00], entity_kind: 0xC7 }),
    {
        EntityId_t { entity_key: [0x00, 0x02, 0x00], entity_kind: 0xC7 }
    }

    /// The wire form: the key, then the kind, whatever the endianness.
    pub open spec fn wire_bytes(&self, endianness: Endianness) -> Seq<u8> {
        self.entity_key@.push(self.entity_kind)
    }

    /// The entity id that stands at the front of `bytes`.
    pub open spec fn from_wire(bytes: Seq<u8>, endianness: Endianness) -> EntityId_t {
        EntityId_t { entity_key: [bytes[0], bytes[1], bytes[2]], entity_kind: bytes[3] }
    }

    /// The number of bytes that the wire form takes.
    pub fn minimum_bytes_needed() -> (n: usize)
        ensures
            n == 4,
    {
        4
    }

    /// Reads the entity id at the front of `bytes`.
    pub fn read_from(bytes: &[u8], endianness: Endianness) -> (r: Result<EntityId_t, CodecError>)
        ensures
            r == if bytes@.len() >= 4 {
                Ok::<EntityId_t, CodecError>(EntityId_t::from_wire(bytes@, endianness))
            } else {
                Err(CodecError::InputTooShort)
            },
    {
        if bytes.len() < 4 {
            return Err(CodecError::InputTooShort);
        }
        let id = EntityId_t { entity_key: [bytes[0], bytes[1], bytes[2]], entity_kind: bytes[3] };
        assert(id.entity_key =~= EntityId_t::from_wire(bytes@, endianness).entity_key);
        Ok(id)
    }

    /// Appends the wire form to `out`.
    pub fn write_to(&self, endianness: Endianness, out: &mut Vec<u8>)
        ensures
            final(out)@ == old(out)@ + self.wire_bytes(endianness),
    {
        write_bytes(self.entity_key.as_slice(), out);
        out.push(self.entity_kind);
        assert(out@ =~= old(out)@ + self.wire_bytes(endianness));
    }

    /// An entity id that is written and read back is unchanged.
    pub proof fn lemma_round_trip(self, endianness: Endianness, rest: Seq<u8>)
        ensures
            self.wire_bytes(endianness).len() == 4,
            EntityId_t::from_wire(self.wire_bytes(endianness) + rest, endianness) == self,
    {
        let back = EntityId_t::from_wire(self.wire_bytes(endianness) + rest, endianness);
        assert(back.entity_key =~= self.entity_key);
    }

    /// The wire form does not depend on the endianness.
    pub proof fn lemma_endianness_invariant(self)
        ensures
            self.wire_bytes(Endianness::LittleEndian) == self.wire_bytes(Endianness::BigEndian),
    {
    }
}

impl Default for EntityId_t {
    fn default() -> (id: EntityId_t)
        ensures
            id == EntityId_t::ENTITYID_UNKNOWN(),
    {
        EntityId_t::ENTITYID_UNKNOWN()
    }
}

} // verus!
