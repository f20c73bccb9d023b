use crate::common::endianness::{write_bytes, Endianness};
use crate::common::error::CodecError;
use vstd::prelude::*;

verus! {

/// The two bytes that name the vendor of an implementation.
#[derive(Copy, Clone, Debug, PartialEq, Eq)]
pub struct VendorId_t {
    pub vendor_id: [u8; 2],
}

impl VendorId_t {
    /// The id of an unknown vendor: both bytes zero.
    #[verifier::allow_in_spec]
    pub fn VENDOR_UNKNOWN() -> VendorId_t
        returns
            (VendorId_t { vendor_id: [0x00, 0x00] }),
    {
        VendorId_t { vendor_id: [0x00, 0x00] }
    }

    /// The wire form: the two bytes in their order, whatever the endianness.
    pub open spec fn wire_bytes(&self, endianness: Endianness) -> Seq<u8> {
        self.vendor_id@
    }

    /// The vendor id that stands at the front of `bytes`.
    pub open spec fn from_wire(bytes: Seq<u8>, endianness: Endianness) -> VendorId_t {
        VendorId_t { vendor_id: [bytes[0], bytes[1]] }
    }

    /// The number of bytes that the wire form takes.
    pub fn minimum_bytes_needed() -> (n: usize)
        ensures
            n == 2,
    {
        2
    }

    /// Reads the vendor id at the front of `bytes`.
    pub fn read_from(bytes: &[u8], endianness: Endianness) -> (r: Result<VendorId_t, CodecError>)
        ensures
            r == if bytes@.len() >= 2 {
                Ok::<VendorId_t, CodecError>(VendorId_t::from_wire(bytes@, endianness))
            } else {
                Err(CodecError::InputTooShort)
            },
    {
        if bytes.len() < 2 {
            return Err(CodecError::InputTooShort);
        }
        let vendor = VendorId_t { vendor_id: [bytes[0], bytes[1]] };
        assert(vendor.vendor_id =~= VendorId_t::from_wire(bytes@, endianness).vendor_id);
        Ok(vendor)
    }

    /// Appends the wire form to `out`.
    pub fn write_to(&self, endianness: Endianness, out: &mut Vec<u8>)
        ensures
            final(out)@ == old(out)@ + self.wire_bytes(endianness),
    {
        write_bytes(self.vendor_id.as_slice(), out);
    }

    /// A vendor id that is written and read back is unchanged.
    pub proof fn lemma_round_trip(self, endianness: Endianness, rest: Seq<u8>)
        ensures
            self.wire_bytes(endianness).len() == 2,
            VendorId_t::from_wire(self.wire_bytes(endianness) + rest, endianness) == self,
    {
        let back = VendorId_t::from_wire(self.wire_bytes(endianness) + rest, endianness);
        assert(back.vendor_id =~= self.vendor_id);
    }

    /// The wire form does not depend on the endianness.
    pub proof fn lemma_endianness_invariant(self)
        ensures
            self.wire_bytes(Endianness::LittleEndian) == self.wire_bytes(Endianness::BigEndian),
    {
    }
}

impl Default for VendorId_t {
    fn default() -> (vendor: VendorId_t)
        ensures
            vendor == VendorId_t::VENDOR_UNKNOWN(),
    {
        VendorId_t::VENDOR_UNKNOWN()
    }
}

impl From<[u8; 2]> for VendorId_t {
    fn from(vendor_id: [u8; 2]) -> (vendor: Self) {
        VendorId_t { vendor_id }
    }
}

impl vstd::std_specs::convert::FromSpecImpl<[u8; 2]> for VendorId_t {
    open spec fn obeys_from_spec() -> bool {
        true
    }

    open spec fn from_spec(vendor_id: [u8; 2]) -> Self {
        VendorId_t { vendor_id }
    }
}

} // verus!
