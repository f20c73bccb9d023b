use crate::common::endianness::Endianness;
use crate::common::error::CodecError;
use vstd::prelude::*;

verus! {

/// A version of the protocol: major and minor number, one byte each.
#[derive(Copy, Clone, Debug, PartialEq, Eq, Structural)]
pub struct ProtocolVersion_t {
    pub major: u8,
    pub minor: u8,
}

impl ProtocolVersion_t {
    /// The version that this implementation speaks.
    #[verifier::allow_in_spec]
    pub fn PROTOCOLVERSION() -> ProtocolVersion_t
        returns
            (ProtocolVersion_t { major: 2, minor: 4 }),
    {
        ProtocolVersion_t { major: 2, minor: 4 }
    }

    #[verifier::allow_in_spec]
    pub fn PROTOCOLVERSION_1_0() -> ProtocolVersion_t
        returns
            (ProtocolVersion_t { major: 1, minor: 0 }),
    {
        ProtocolVersion_t { major: 1, minor: 0 }
    }

    #[verifier::allow_in_spec]
    pub fn PROTOCOLVERSION_1_1() -> ProtocolVersion_t
        returns
            (ProtocolVersion_t { major: 1, minor: 1 }),
    {
        ProtocolVersion_t { major: 1, minor: 1 }
    }

    #[verifier::allow_in_spec]
    pub fn PROTOCOLVERSION_2_0() -> ProtocolVersion_t
        returns
            (ProtocolVersion_t { major: 2, minor: 0 }),
    {
        ProtocolVersion_t { major: 2, minor: 0 }
    }

    /// The oldest version that a message may name.
    #[verifier::allow_in_spec]
    pub fn PROTOCOLVERSION_2_1() -> ProtocolVersion_t
        returns
            (ProtocolVersion_t { major: 2, minor: 1 }),
    {
        ProtocolVersion_t { major: 2, minor: 1 }
    }

    #[verifier::allow_in_spec]
    pub fn PROTOCOLVERSION_2_2() -> ProtocolVersion_t
        returns
            (ProtocolVersion_t { major: 2, minor: 2 }),
    {
        ProtocolVersion_t { major: 2, minor: 2 }
    }

    #[verifier::allow_in_spec]
    pub fn PROTOCOLVERSION_2_4() -> ProtocolVersion_t
        returns
            (ProtocolVersion_t { major: 2, minor: 4 }),
    {
        ProtocolVersion_t { major: 2, minor: 4 }
    }

    /// Whether this version is `other` or a later one: the major numbers
    /// decide, and the minor numbers where those are equal.
    pub open spec fn at_least(&self, other: ProtocolVersion_t) -> bool {
        self.major > other.major || (self.major == other.major && self.minor >= other.minor)
    }

    /// Whether this version is `other` or a later one.
    pub fn is_at_least(&self, other: ProtocolVersion_t) -> (r: bool)
        ensures
            r == self.at_least(other),
    {
        self.major > other.major || (self.major == other.major && self.minor >= other.minor)
    }

    /// The wire form: major, then minor, whatever the endianness.
    pub open spec fn wire_bytes(&self, endianness: Endianness) -> Seq<u8> {
        seq![self.major, self.minor]
    }

    /// The version that stands at the front of `bytes`.
    pub open spec fn from_wire(bytes: Seq<u8>, endianness: Endianness) -> ProtocolVersion_t {
        ProtocolVersion_t { major: bytes[0], minor: bytes[1] }
    }

    /// The number of bytes that the wire form takes.
    pub fn minimum_bytes_needed() -> (n: usize)
        ensures
            n == 2,
    {
        2
    }

    /// Reads the version at the front of `bytes`.
    pub fn read_from(bytes: &[u8], endianness: Endianness) -> (r: Result<
        ProtocolVersion_t,
        CodecError,
    >)
        ensures
            r == if bytes@.len() >= 2 {
                Ok::<ProtocolVersion_t, CodecError>(
                    ProtocolVersion_t::from_wire(bytes@, endianness),
                )
            } else {
                Err(CodecError::InputTooShort)
            },
    {
        if bytes.len() < 2 {
            return Err(CodecError::InputTooShort);
        }
        Ok(ProtocolVersion_t { major: bytes[0], minor: bytes[1] })
    }

    /// Appends the wire form to `out`.
    pub fn write_to(&self, endianness: Endianness, out: &mut Vec<u8>)
        ensures
            final(out)@ == old(out)@ + self.wire_bytes(endianness),
    {
        out.push(self.major);
        out.push(self.minor);
        assert(out@ =~= old(out)@ + self.wire_bytes(endianness));
    }

    /// A version that is written and read back is unchanged.
    pub proof fn lemma_round_trip(self, endianness: Endianness, rest: Seq<u8>)
        ensures
            self.wire_bytes(endianness).len() == 2,
            ProtocolVersion_t::from_wire(self.wire_bytes(endianness) + rest, endianness) == self,
    {
    }

    /// The wire form does not depend on the endianness.
    pub proof fn lemma_endianness_invariant(self)
        ensures
            self.wire_bytes(Endianness::LittleEndian) == self.wire_bytes(Endianness::BigEndian),
    {
    }
}

impl Default for ProtocolVersion_t {
    fn default() -> (version: ProtocolVersion_t)
        ensures
            version == ProtocolVersion_t::PROTOCOLVERSION(),
    {
        ProtocolVersion_t::PROTOCOLVERSION()
    }
}

} // verus!
